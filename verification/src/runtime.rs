//! Where the bundled runtime, the Node.js binary and the `dsh` entrypoint
//! are, and how the server process is started and stopped.
//!
//! The caller looks at the file system and the environment; the functions
//! here decide, from what it found, which location is used.

use vstd::prelude::*;
use crate::text::{decimal, decimal_string};

verus! {

/// The environment variable that names the runtime directory.
pub const RUNTIME_ROOT_VAR: &'static str = "DSH_DESKTOP_RUNTIME_ROOT";

/// The environment variable that names the Node.js binary.
pub const NODE_BIN_VAR: &'static str = "DSH_NODE_BIN";

fn same_text(a: &str, b: &str) -> (r: bool)
    ensures
        r == (a@ == b@),
{
    String::from_str(a) == String::from_str(b)
}

/// The name of the runtime directory for an operating system and a CPU
/// architecture (as `std::env::consts` names them).
pub open spec fn target_name(os: Seq<char>, arch: Seq<char>) -> Seq<char> {
    if os == "macos"@ && arch == "aarch64"@ {
        "darwin-arm64"@
    } else if os == "macos"@ && arch == "x86_64"@ {
        "darwin-x64"@
    } else if os == "windows"@ && arch == "x86_64"@ {
        "windows-x64"@
    } else {
        "unsupported"@
    }
}

/// The name of the Node.js binary on an operating system.
pub open spec fn node_file_name(os: Seq<char>) -> Seq<char> {
    if os == "windows"@ {
        "node.exe"@
    } else {
        "node"@
    }
}

pub fn runtime_target(os: &str, arch: &str) -> (t: &'static str)
    ensures
        t@ == target_name(os@, arch@),
{
    if same_text(os, "macos") && same_text(arch, "aarch64") {
        "darwin-arm64"
    } else if same_text(os, "macos") && same_text(arch, "x86_64") {
        "darwin-x64"
    } else if same_text(os, "windows") && same_text(arch, "x86_64") {
        "windows-x64"
    } else {
        "unsupported"
    }
}

pub fn node_filename(os: &str) -> (n: &'static str)
    ensures
        n@ == node_file_name(os@),
{
    if same_text(os, "windows") {
        "node.exe"
    } else {
        "node"
    }
}

/// No target name and no binary name is empty.
pub proof fn lemma_platform_names_not_empty(os: Seq<char>, arch: Seq<char>)
    ensures
        target_name(os, arch).len() > 0,
        node_file_name(os) == "node"@ || node_file_name(os) == "node.exe"@,
        node_file_name(os).len() > 0,
{
    reveal_strlit("darwin-arm64");
    reveal_strlit("darwin-x64");
    reveal_strlit("windows-x64");
    reveal_strlit("unsupported");
    reveal_strlit("node");
    reveal_strlit("node.exe");
}

/// The index of the first of the first `count` entries that is `true`.
pub open spec fn first_present(present: Seq<bool>, count: nat) -> Option<nat>
    decreases count,
{
    if count == 0 {
        None
    } else {
        match first_present(present, (count - 1) as nat) {
            Some(i) => Some(i),
            None => if count - 1 < present.len() && present[count - 1] {
                Some((count - 1) as nat)
            } else {
                None
            },
        }
    }
}

/// The chosen candidate is one that exists, and none before it does; when
/// none is chosen, none of them exists.
pub proof fn lemma_first_present_is_first(present: Seq<bool>, count: nat)
    ensures
        match first_present(present, count) {
            Some(i) => i < count && i < present.len() && present[i as int] && forall|j: int|
                0 <= j < i ==> !present[j],
            None => forall|j: int| 0 <= j < count && j < present.len() ==> !present[j],
        },
    decreases count,
{
    if count > 0 {
        lemma_first_present_is_first(present, (count - 1) as nat);
    }
}

proof fn lemma_first_present_stable(present: Seq<bool>, k: nat, count: nat)
    requires
        k <= count,
        first_present(present, k) is Some,
    ensures
        first_present(present, count) == first_present(present, k),
    decreases count - k,
{
    if k < count {
        lemma_first_present_stable(present, k, (count - 1) as nat);
    }
}

fn find_first_present(present: &Vec<bool>, count: usize) -> (r: Option<usize>)
    ensures
        match r {
            Some(i) => first_present(present@, count as nat) == Some(i as nat) && i < count,
            None => first_present(present@, count as nat) is None,
        },
{
    proof {
        lemma_first_present_is_first(present@, count as nat);
    }
    let mut i: usize = 0;
    while i < count
        invariant
            i <= count,
            first_present(present@, i as nat) is None,
        decreases count - i,
    {
        assert(first_present(present@, (i + 1) as nat) == (if i < present@.len() && present@[i as int] {
            Some(i as nat)
        } else {
            None::<nat>
        }));
        if i < present.len() && present[i] {
            proof {
                lemma_first_present_stable(present@, (i + 1) as nat, count as nat);
            }
            return Some(i);
        }
        i = i + 1;
    }
    None
}

/// The directory of the bundled runtimes, under the application's resources.
pub const RUNTIME_RESOURCE_DIR: &'static str = "runtime";

/// The root of a source checkout, relative to the shell's own manifest directory.
pub const CHECKOUT_ROOT: &'static str = "../../..";

/// The directory whose presence marks a source checkout, relative to its root.
pub const CHECKOUT_MARKER: &'static str = "apps/cli";

/// The views of a sequence of strings.
pub open spec fn views(v: Seq<String>) -> Seq<Seq<char>> {
    v.map_values(|s: String| s@)
}

pub open spec fn result_view<T, V>(r: Result<T, String>, f: spec_fn(T) -> V) -> Result<V, Seq<char>> {
    match r {
        Ok(t) => Ok(f(t)),
        Err(e) => Err(e@),
    }
}

/// Where the runtime directory is.
#[derive(Debug)]
pub enum RuntimeLocation {
    /// The directory named by [`RUNTIME_ROOT_VAR`].
    Given(String),
    /// The target's directory under the bundled runtimes.
    BundledTarget,
    /// The bundled runtimes' directory itself.
    BundledRoot,
    /// The source checkout.
    Checkout,
}

pub enum RuntimeLocationView {
    Given(Seq<char>),
    BundledTarget,
    BundledRoot,
    Checkout,
}

impl View for RuntimeLocation {
    type V = RuntimeLocationView;

    open spec fn view(&self) -> RuntimeLocationView {
        match self {
            RuntimeLocation::Given(p) => RuntimeLocationView::Given(p@),
            RuntimeLocation::BundledTarget => RuntimeLocationView::BundledTarget,
            RuntimeLocation::BundledRoot => RuntimeLocationView::BundledRoot,
            RuntimeLocation::Checkout => RuntimeLocationView::Checkout,
        }
    }
}

/// The runtime directory: the one the environment names; else, among the
/// bundled runtimes, the target's directory or the bundled directory itself,
/// whichever exists first; else a source checkout, if there is one.
pub open spec fn runtime_choice(
    configured: Option<Seq<char>>,
    bundled_target_exists: bool,
    bundled_root_exists: bool,
    checkout_exists: bool,
) -> Result<RuntimeLocationView, Seq<char>> {
    match configured {
        Some(p) => Ok(RuntimeLocationView::Given(p)),
        None => if bundled_target_exists {
            Ok(RuntimeLocationView::BundledTarget)
        } else if bundled_root_exists {
            Ok(RuntimeLocationView::BundledRoot)
        } else if checkout_exists {
            Ok(RuntimeLocationView::Checkout)
        } else {
            Err("DeepSeek Harness runtime was not found"@)
        },
    }
}

/// Chooses the runtime directory. `configured` is the value of
/// [`RUNTIME_ROOT_VAR`]; the flags say whether the target's bundled
/// directory, the bundled directory and the checkout marker exist (the
/// bundled ones count as absent when the resources cannot be located).
pub fn resolve_runtime(
    configured: Option<String>,
    bundled_target_exists: bool,
    bundled_root_exists: bool,
    checkout_exists: bool,
) -> (r: Result<RuntimeLocation, String>)
    ensures
        result_view(r, |l: RuntimeLocation| l@) == runtime_choice(
            crate::status::opt_string_view(configured),
            bundled_target_exists,
            bundled_root_exists,
            checkout_exists,
        ),
{
    match configured {
        Some(p) => Ok(RuntimeLocation::Given(p)),
        None => if bundled_target_exists {
            Ok(RuntimeLocation::BundledTarget)
        } else if bundled_root_exists {
            Ok(RuntimeLocation::BundledRoot)
        } else if checkout_exists {
            Ok(RuntimeLocation::Checkout)
        } else {
            Err(String::from_str("DeepSeek Harness runtime was not found"))
        },
    }
}

/// The candidate locations of the Node.js binary, as path components under
/// the runtime directory, in the order they are tried.
pub open spec fn node_candidate_paths(os: Seq<char>, arch: Seq<char>) -> Seq<Seq<Seq<char>>> {
    seq![
        seq!["node"@, node_file_name(os)],
        seq!["node"@, target_name(os, arch), node_file_name(os)],
    ]
}

fn push_text(v: &mut Vec<String>, t: &str)
    ensures
        views(final(v)@) == views(old(v)@).push(t@),
{
    v.push(String::from_str(t));
    assert(views(v@) =~= views(old(v)@).push(t@));
}

/// The candidate locations of the Node.js binary.
pub fn node_candidates(os: &str, arch: &str) -> (c: Vec<Vec<String>>)
    ensures
        c@.map_values(|v: Vec<String>| views(v@)) == node_candidate_paths(os@, arch@),
{
    let name = node_filename(os);
    let target = runtime_target(os, arch);
    let mut first: Vec<String> = Vec::new();
    push_text(&mut first, "node");
    push_text(&mut first, name);
    let mut second: Vec<String> = Vec::new();
    push_text(&mut second, "node");
    push_text(&mut second, target);
    push_text(&mut second, name);
    assert(views(first@) =~= seq!["node"@, name@]);
    assert(views(second@) =~= seq!["node"@, target@, name@]);
    let mut c: Vec<Vec<String>> = Vec::new();
    c.push(first);
    c.push(second);
    assert(c@.map_values(|v: Vec<String>| views(v@)) =~= node_candidate_paths(os@, arch@));
    c
}

/// Where the Node.js binary is.
#[derive(Debug)]
pub enum NodeLocation {
    /// A path or program name used as it is.
    Given(String),
    /// These path components under the runtime directory.
    Bundled(Vec<String>),
}

pub enum NodeLocationView {
    Given(Seq<char>),
    Bundled(Seq<Seq<char>>),
}

impl View for NodeLocation {
    type V = NodeLocationView;

    open spec fn view(&self) -> NodeLocationView {
        match self {
            NodeLocation::Given(p) => NodeLocationView::Given(p@),
            NodeLocation::Bundled(v) => NodeLocationView::Bundled(views(v@)),
        }
    }
}

/// The Node.js binary: the one the environment names; else the first
/// bundled candidate that exists; else, in a debug build, `node` from the
/// search path.
pub open spec fn node_choice(
    configured: Option<Seq<char>>,
    os: Seq<char>,
    arch: Seq<char>,
    present: Seq<bool>,
    debug_build: bool,
) -> Result<NodeLocationView, Seq<char>> {
    match configured {
        Some(p) => Ok(NodeLocationView::Given(p)),
        None => match first_present(present, 2) {
            Some(i) => Ok(NodeLocationView::Bundled(node_candidate_paths(os, arch)[i as int])),
            None => if debug_build {
                Ok(NodeLocationView::Given("node"@))
            } else {
                Err(
                    "bundled Node.js runtime was not found; run prepare-desktop-runtime before packaging"@,
                )
            },
        },
    }
}

/// Chooses the Node.js binary. `configured` is the value of
/// [`NODE_BIN_VAR`]; `present[i]` says whether the `i`th of
/// [`node_candidates`] exists under the runtime directory.
pub fn resolve_node(
    configured: Option<String>,
    os: &str,
    arch: &str,
    present: &Vec<bool>,
    debug_build: bool,
) -> (r: Result<NodeLocation, String>)
    ensures
        result_view(r, |l: NodeLocation| l@) == node_choice(
            crate::status::opt_string_view(configured),
            os@,
            arch@,
            present@,
            debug_build,
        ),
{
    match configured {
        Some(p) => Ok(NodeLocation::Given(p)),
        None => match find_first_present(present, 2) {
            Some(i) => {
                let mut candidates = node_candidates(os, arch);
                assert(candidates@.len() == candidates@.map_values(|v: Vec<String>| views(v@)).len());
                assert(views(candidates@[i as int]@) == candidates@.map_values(
                    |v: Vec<String>| views(v@),
                )[i as int]);
                let chosen = candidates.remove(i);
                assert(views(chosen@) == node_candidate_paths(os@, arch@)[i as int]);
                Ok(NodeLocation::Bundled(chosen))
            },
            None => if debug_build {
                Ok(NodeLocation::Given(String::from_str("node")))
            } else {
                Err(
                    String::from_str(
                        "bundled Node.js runtime was not found; run prepare-desktop-runtime before packaging",
                    ),
                )
            },
        },
    }
}

/// The candidate locations of the `dsh` entrypoint under the runtime
/// directory, in the order they are tried.
pub open spec fn entrypoint_candidate_paths() -> Seq<Seq<char>> {
    seq!["apps/cli/lib/bin.js"@, "dsh/lib/bin.js"@, "dsh/apps/cli/lib/bin.js"@]
}

/// The candidate locations of the `dsh` entrypoint.
pub fn entrypoint_candidates() -> (c: Vec<String>)
    ensures
        views(c@) == entrypoint_candidate_paths(),
{
    let mut c: Vec<String> = Vec::new();
    push_text(&mut c, "apps/cli/lib/bin.js");
    push_text(&mut c, "dsh/lib/bin.js");
    push_text(&mut c, "dsh/apps/cli/lib/bin.js");
    assert(views(c@) =~= entrypoint_candidate_paths());
    c
}

/// The entrypoint: the first candidate that exists.
pub open spec fn entrypoint_choice(present: Seq<bool>) -> Result<Seq<char>, Seq<char>> {
    match first_present(present, 3) {
        Some(i) => Ok(entrypoint_candidate_paths()[i as int]),
        None => Err("built dsh entrypoint was not found; run pnpm run build first"@),
    }
}

/// Chooses the entrypoint; `present[i]` says whether the `i`th of
/// [`entrypoint_candidates`] exists under the runtime directory.
pub fn resolve_entrypoint(present: &Vec<bool>) -> (r: Result<String, String>)
    ensures
        result_view(r, |p: String| p@) == entrypoint_choice(present@),
{
    match find_first_present(present, 3) {
        Some(i) => {
            let mut candidates = entrypoint_candidates();
            assert(candidates@.len() == views(candidates@).len());
            assert(candidates@[i as int]@ == views(candidates@)[i as int]);
            let chosen = candidates.remove(i);
            Ok(chosen)
        },
        None => Err(String::from_str("built dsh entrypoint was not found; run pnpm run build first")),
    }
}


/// The arguments that follow the entrypoint on the server's command line.
pub open spec fn launch_argument_views(port: u16) -> Seq<Seq<char>> {
    seq!["web"@, "--host"@, "127.0.0.1"@, "--port"@, decimal(port as nat)]
}

/// The server's arguments after the entrypoint: serve the web profile on
/// localhost at `port`.
pub fn launch_arguments(port: u16) -> (a: Vec<String>)
    ensures
        views(a@) == launch_argument_views(port),
{
    let mut a: Vec<String> = Vec::new();
    push_text(&mut a, "web");
    push_text(&mut a, "--host");
    push_text(&mut a, "127.0.0.1");
    push_text(&mut a, "--port");
    let number = decimal_string(port as u64);
    push_text(&mut a, number.as_str());
    assert(views(a@) =~= launch_argument_views(port));
    a
}

/// The environment variables that the server is given.
pub open spec fn launch_environment_views(data_dir: Seq<char>) -> Seq<(Seq<char>, Seq<char>)> {
    seq![("DSH_HOME"@, data_dir), ("DSH_DESKTOP"@, "1"@)]
}

/// The server's environment: its home is the application's data directory,
/// and it is told that it runs inside the desktop shell.
pub fn launch_environment(data_dir: String) -> (e: Vec<(String, String)>)
    ensures
        e@.map_values(|p: (String, String)| (p.0@, p.1@)) == launch_environment_views(data_dir@),
{
    let mut e: Vec<(String, String)> = Vec::new();
    e.push((String::from_str("DSH_HOME"), data_dir));
    e.push((String::from_str("DSH_DESKTOP"), String::from_str("1")));
    assert(e@.map_values(|p: (String, String)| (p.0@, p.1@)) =~= launch_environment_views(
        data_dir@,
    ));
    e
}

/// How long a terminated server is given to exit before it is killed, in milliseconds.
pub const TERMINATION_GRACE_MILLIS: u64 = 2_000;

/// How often the exit of a terminated server is checked, in milliseconds.
pub const TERMINATION_POLL_MILLIS: u64 = 50;

/// The signal that asks the server's process group to exit.
pub const TERMINATE_SIGNAL: &'static str = "-TERM";

/// The signal that kills the server's process group.
pub const KILL_SIGNAL: &'static str = "-KILL";

/// The arguments of `kill` that send `signal` to the process group `pid`.
pub open spec fn group_kill_argument_views(signal: Seq<char>, pid: u32) -> Seq<Seq<char>> {
    seq![signal, "-"@ + decimal(pid as nat)]
}

/// The arguments of `kill` that send `signal` to the process group led by `pid`.
pub fn group_kill_arguments(signal: &str, pid: u32) -> (a: Vec<String>)
    ensures
        views(a@) == group_kill_argument_views(signal@, pid),
{
    let mut a: Vec<String> = Vec::new();
    push_text(&mut a, signal);
    let mut group = String::from_str("-");
    group.append(decimal_string(pid as u64).as_str());
    push_text(&mut a, group.as_str());
    assert(views(a@) =~= group_kill_argument_views(signal@, pid));
    a
}

/// The arguments of `taskkill` that end the process tree of `pid` by force.
pub open spec fn taskkill_argument_views(pid: u32) -> Seq<Seq<char>> {
    seq!["/PID"@, decimal(pid as nat), "/T"@, "/F"@]
}

/// The arguments of `taskkill` that end the process tree of `pid` by force.
pub fn taskkill_arguments(pid: u32) -> (a: Vec<String>)
    ensures
        views(a@) == taskkill_argument_views(pid),
{
    let mut a: Vec<String> = Vec::new();
    push_text(&mut a, "/PID");
    let number = decimal_string(pid as u64);
    push_text(&mut a, number.as_str());
    push_text(&mut a, "/T");
    push_text(&mut a, "/F");
    assert(views(a@) =~= taskkill_argument_views(pid));
    a
}

/// The runtime directory is chosen by priority: a configured directory wins
/// whatever exists; otherwise an existing bundled target directory wins
/// whatever else exists; the bundled directory itself only when the target's
/// is missing; the checkout only when no bundled directory exists; and the
/// search fails only when nothing exists.
pub proof fn lemma_runtime_priority(
    configured: Option<Seq<char>>,
    target: bool,
    root: bool,
    checkout: bool,
)
    ensures
        configured matches Some(p) ==> runtime_choice(configured, target, root, checkout) == Ok::<
            RuntimeLocationView,
            Seq<char>,
        >(RuntimeLocationView::Given(p)),
        configured is None && target ==> runtime_choice(configured, target, root, checkout) == Ok::<
            RuntimeLocationView,
            Seq<char>,
        >(RuntimeLocationView::BundledTarget),
        runtime_choice(configured, target, root, checkout) == Ok::<RuntimeLocationView, Seq<char>>(
            RuntimeLocationView::BundledRoot,
        ) <==> (configured is None && !target && root),
        runtime_choice(configured, target, root, checkout) == Ok::<RuntimeLocationView, Seq<char>>(
            RuntimeLocationView::Checkout,
        ) <==> (configured is None && !target && !root && checkout),
        runtime_choice(configured, target, root, checkout) is Err <==> (configured is None
            && !target && !root && !checkout),
{
}

/// The Node.js binary: a configured one wins; otherwise the first bundled
/// candidate that exists, `node/<binary>` before `node/<target>/<binary>`;
/// otherwise `node` from the search path in a debug build, and an error in a
/// release build.
pub proof fn lemma_node_priority(
    configured: Option<Seq<char>>,
    os: Seq<char>,
    arch: Seq<char>,
    present: Seq<bool>,
    debug_build: bool,
)
    ensures
        configured matches Some(p) ==> node_choice(configured, os, arch, present, debug_build)
            == Ok::<NodeLocationView, Seq<char>>(NodeLocationView::Given(p)),
        configured is None && present.len() > 0 && present[0] ==> node_choice(
            configured,
            os,
            arch,
            present,
            debug_build,
        ) == Ok::<NodeLocationView, Seq<char>>(
            NodeLocationView::Bundled(seq!["node"@, node_file_name(os)]),
        ),
        configured is None && (present.len() == 0 || !present[0]) && present.len() > 1
            && present[1] ==> node_choice(configured, os, arch, present, debug_build) == Ok::<
            NodeLocationView,
            Seq<char>,
        >(NodeLocationView::Bundled(seq!["node"@, target_name(os, arch), node_file_name(os)])),
        configured is None && (present.len() == 0 || !present[0]) && (present.len() <= 1
            || !present[1]) ==> node_choice(configured, os, arch, present, debug_build) == if debug_build {
            Ok::<NodeLocationView, Seq<char>>(NodeLocationView::Given("node"@))
        } else {
            Err::<NodeLocationView, Seq<char>>(
                "bundled Node.js runtime was not found; run prepare-desktop-runtime before packaging"@,
            )
        },
{
    reveal_with_fuel(first_present, 3);
}

/// The entrypoint is the first existing candidate among
/// `apps/cli/lib/bin.js`, `dsh/lib/bin.js` and `dsh/apps/cli/lib/bin.js`, and
/// the search fails only when none exists.
pub proof fn lemma_entrypoint_priority(present: Seq<bool>)
    ensures
        present.len() > 0 && present[0] ==> entrypoint_choice(present) == Ok::<
            Seq<char>,
            Seq<char>,
        >("apps/cli/lib/bin.js"@),
        present.len() > 1 && !present[0] && present[1] ==> entrypoint_choice(present) == Ok::<
            Seq<char>,
            Seq<char>,
        >("dsh/lib/bin.js"@),
        present.len() > 2 && !present[0] && !present[1] && present[2] ==> entrypoint_choice(present)
            == Ok::<Seq<char>, Seq<char>>("dsh/apps/cli/lib/bin.js"@),
        entrypoint_choice(present) is Err <==> forall|j: int|
            0 <= j < 3 && j < present.len() ==> !present[j],
{
    reveal_with_fuel(first_present, 4);
    lemma_first_present_is_first(present, 3);
}

/// The supported platforms have their own runtime directories and every
/// other platform falls back to `unsupported`; only Windows uses `node.exe`.
pub proof fn lemma_platform_names(os: Seq<char>, arch: Seq<char>)
    ensures
        target_name("macos"@, "aarch64"@) == "darwin-arm64"@,
        target_name("macos"@, "x86_64"@) == "darwin-x64"@,
        target_name("windows"@, "x86_64"@) == "windows-x64"@,
        os != "macos"@ && os != "windows"@ ==> target_name(os, arch) == "unsupported"@,
        arch != "aarch64"@ && arch != "x86_64"@ ==> target_name(os, arch) == "unsupported"@,
        node_file_name("windows"@) == "node.exe"@,
        os != "windows"@ ==> node_file_name(os) == "node"@,
{
    reveal_strlit("macos");
    reveal_strlit("windows");
    reveal_strlit("aarch64");
    reveal_strlit("x86_64");
    assert("macos"@ != "windows"@) by {
        assert("macos"@.len() != "windows"@.len());
    }
    assert("aarch64"@ != "x86_64"@) by {
        assert("aarch64"@[0] != "x86_64"@[0]);
    }
}

} // verus!
