//! Decision logic of the DeepSeek Harness desktop shell: the status that the
//! shell reports, the lifecycle of the managed `dsh` server process, the
//! readiness wait, the port scan and the resolution of the bundled runtime.
//! Every effect (processes, sockets, files, the window toolkit) is performed by
//! the caller; the functions here decide what to do and what to report.

pub mod status;
pub mod text;
pub mod manager;
pub mod ports;
pub mod readiness;
pub mod runtime;
pub mod startup;
