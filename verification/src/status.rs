//! The status record that the shell publishes to the web view.

use vstd::prelude::*;

verus! {

/// The status of the managed `dsh` server: `state` is one of `"stopped"`,
/// `"starting"`, `"ready"` and `"failed"`; `port` is set when ready and
/// `error` when failed.
#[derive(Debug)]
pub struct DshStatus {
    pub state: String,
    pub port: Option<u16>,
    pub error: Option<String>,
}

/// The mathematical value of a [`DshStatus`].
pub struct StatusView {
    pub state: Seq<char>,
    pub port: Option<u16>,
    pub error: Option<Seq<char>>,
}

pub open spec fn opt_string_view(s: Option<String>) -> Option<Seq<char>> {
    match s {
        Some(t) => Some(t@),
        None => None,
    }
}

impl View for DshStatus {
    type V = StatusView;

    open spec fn view(&self) -> StatusView {
        StatusView { state: self.state@, port: self.port, error: opt_string_view(self.error) }
    }
}

pub open spec fn stopped_view() -> StatusView {
    StatusView { state: "stopped"@, port: None, error: None }
}

pub open spec fn starting_view() -> StatusView {
    StatusView { state: "starting"@, port: None, error: None }
}

pub open spec fn ready_view(port: u16) -> StatusView {
    StatusView { state: "ready"@, port: Some(port), error: None }
}

pub open spec fn failed_view(error: Seq<char>) -> StatusView {
    StatusView { state: "failed"@, port: None, error: Some(error) }
}

/// Whether a status reports a running server.
pub open spec fn is_ready_state(s: StatusView) -> bool {
    s.state == "ready"@
}

impl DshStatus {
    pub fn stopped() -> (s: DshStatus)
        ensures
            s@ == stopped_view(),
    {
        DshStatus { state: String::from_str("stopped"), port: None, error: None }
    }

    pub fn starting() -> (s: DshStatus)
        ensures
            s@ == starting_view(),
    {
        DshStatus { state: String::from_str("starting"), port: None, error: None }
    }

    pub fn ready(port: u16) -> (s: DshStatus)
        ensures
            s@ == ready_view(port),
    {
        DshStatus { state: String::from_str("ready"), port: Some(port), error: None }
    }

    pub fn failed(error: String) -> (s: DshStatus)
        ensures
            s@ == failed_view(error@),
    {
        DshStatus { state: String::from_str("failed"), port: None, error: Some(error) }
    }

    /// A field-by-field copy.
    pub fn snapshot(&self) -> (s: DshStatus)
        ensures
            s@ == self@,
    {
        let error = match &self.error {
            Some(e) => Some(e.clone()),
            None => None,
        };
        DshStatus { state: self.state.clone(), port: self.port, error }
    }

    /// Whether `state` is `"ready"`.
    pub fn is_ready(&self) -> (b: bool)
        ensures
            b == is_ready_state(self@),
    {
        let ready = String::from_str("ready");
        self.state == ready
    }
}

} // verus!
