use dsh_desktop::ports::{find_available_port, find_available_port_from, DEFAULT_PORT};
use dsh_desktop::readiness::is_success_response;
use dsh_desktop::runtime::{
    entrypoint_candidates, group_kill_arguments, launch_arguments, launch_environment,
    node_candidates, node_filename, resolve_entrypoint, resolve_node, resolve_runtime,
    runtime_target, taskkill_arguments, NodeLocation, RuntimeLocation, KILL_SIGNAL,
    TERMINATE_SIGNAL,
};
use dsh_desktop::text::decimal_string;
use std::cell::RefCell;

#[test]
fn uses_platform_runtime_names() {
    let platforms = [
        ("macos", "aarch64"),
        ("macos", "x86_64"),
        ("windows", "x86_64"),
        ("linux", "x86_64"),
        ("windows", "aarch64"),
        ("", ""),
    ];
    for (os, arch) in platforms {
        assert!(!runtime_target(os, arch).is_empty());
        assert!(node_filename(os) == "node" || node_filename(os) == "node.exe");
    }
}

#[test]
fn names_each_supported_target() {
    assert_eq!(runtime_target("macos", "aarch64"), "darwin-arm64");
    assert_eq!(runtime_target("macos", "x86_64"), "darwin-x64");
    assert_eq!(runtime_target("windows", "x86_64"), "windows-x64");
    assert_eq!(runtime_target("linux", "x86_64"), "unsupported");
    assert_eq!(runtime_target("windows", "aarch64"), "unsupported");
    assert_eq!(node_filename("windows"), "node.exe");
    assert_eq!(node_filename("macos"), "node");
    assert_eq!(node_filename("linux"), "node");
}

#[test]
fn rejects_an_occupied_port() {
    let port = 41234;
    assert!(find_available_port_from(port, 1, |p| p != port).is_err());
}

#[test]
fn takes_the_first_free_port_in_order() {
    let asked = RefCell::new(Vec::new());
    let found = find_available_port_from(3080, 100, |p| {
        asked.borrow_mut().push(p);
        p >= 3082
    });
    assert_eq!(found, Ok(3082));
    assert_eq!(*asked.borrow(), vec![3080, 3081, 3082]);
    assert_eq!(find_available_port(|p| p == DEFAULT_PORT + 5), Ok(3085));
}

#[test]
fn reports_the_scanned_range() {
    assert_eq!(
        find_available_port_from(3080, 100, |_| false),
        Err("no available localhost port in 3080..3179".to_string())
    );
    assert_eq!(
        find_available_port(|_| false),
        Err("no available localhost port in 3080..3179".to_string())
    );
    assert_eq!(
        find_available_port_from(65534, 5, |_| false),
        Err("no available localhost port in 65534..65535".to_string())
    );
    assert_eq!(
        find_available_port_from(7, 0, |_| true),
        Err("no available localhost port in 7..7".to_string())
    );
}

#[test]
fn saturates_at_the_last_port() {
    let asked = RefCell::new(Vec::new());
    let found = find_available_port_from(65534, 4, |p| {
        asked.borrow_mut().push(p);
        false
    });
    assert!(found.is_err());
    assert_eq!(*asked.borrow(), vec![65534, 65535, 65535, 65535]);
}

#[test]
fn detects_an_http_server() {
    assert!(is_success_response(b"HTTP/1.1 200 OK\r\nContent-Length: 0\r\n\r\n"));
}

#[test]
fn judges_status_lines() {
    assert!(is_success_response(b"HTTP/1.1 302 Found\r\n"));
    assert!(is_success_response(b"HTTP/1.1 2"));
    assert!(!is_success_response(b"HTTP/1.1 404 Not Found\r\n"));
    assert!(!is_success_response(b"HTTP/1.1 500"));
    assert!(!is_success_response(b"HTTP/1.0 200 OK"));
    assert!(!is_success_response(b"HTTP/1.1 "));
    assert!(!is_success_response(b""));
    assert!(!is_success_response(b"http/1.1 200 OK"));
}

#[test]
fn renders_decimal_numbers() {
    assert_eq!(decimal_string(0), "0");
    assert_eq!(decimal_string(7), "7");
    assert_eq!(decimal_string(10), "10");
    assert_eq!(decimal_string(3080), "3080");
    assert_eq!(decimal_string(u64::MAX), u64::MAX.to_string());
}

#[test]
fn prefers_the_configured_runtime() {
    match resolve_runtime(Some("/opt/rt".to_string()), true, true, true) {
        Ok(RuntimeLocation::Given(p)) => assert_eq!(p, "/opt/rt"),
        other => panic!("unexpected {:?}", other),
    }
    assert!(matches!(resolve_runtime(None, true, true, true), Ok(RuntimeLocation::BundledTarget)));
    assert!(matches!(resolve_runtime(None, false, true, true), Ok(RuntimeLocation::BundledRoot)));
    assert!(matches!(resolve_runtime(None, false, false, true), Ok(RuntimeLocation::Checkout)));
    match resolve_runtime(None, false, false, false) {
        Err(e) => assert_eq!(e, "DeepSeek Harness runtime was not found"),
        other => panic!("unexpected {:?}", other),
    }
}

#[test]
fn finds_the_node_binary() {
    assert_eq!(
        node_candidates("windows", "x86_64"),
        vec![
            vec!["node".to_string(), "node.exe".to_string()],
            vec!["node".to_string(), "windows-x64".to_string(), "node.exe".to_string()],
        ]
    );
    match resolve_node(Some("/usr/bin/node".to_string()), "macos", "aarch64", &vec![true, true], false) {
        Ok(NodeLocation::Given(p)) => assert_eq!(p, "/usr/bin/node"),
        other => panic!("unexpected {:?}", other),
    }
    match resolve_node(None, "macos", "aarch64", &vec![false, true], false) {
        Ok(NodeLocation::Bundled(parts)) => assert_eq!(parts, vec!["node", "darwin-arm64", "node"]),
        other => panic!("unexpected {:?}", other),
    }
    match resolve_node(None, "macos", "aarch64", &vec![true, true], false) {
        Ok(NodeLocation::Bundled(parts)) => assert_eq!(parts, vec!["node", "node"]),
        other => panic!("unexpected {:?}", other),
    }
    match resolve_node(None, "macos", "aarch64", &vec![false, false], true) {
        Ok(NodeLocation::Given(p)) => assert_eq!(p, "node"),
        other => panic!("unexpected {:?}", other),
    }
    match resolve_node(None, "macos", "aarch64", &vec![], false) {
        Err(e) => assert_eq!(
            e,
            "bundled Node.js runtime was not found; run prepare-desktop-runtime before packaging"
        ),
        other => panic!("unexpected {:?}", other),
    }
}

#[test]
fn finds_the_entrypoint() {
    assert_eq!(
        entrypoint_candidates(),
        vec!["apps/cli/lib/bin.js", "dsh/lib/bin.js", "dsh/apps/cli/lib/bin.js"]
    );
    assert_eq!(resolve_entrypoint(&vec![true, true, true]), Ok("apps/cli/lib/bin.js".to_string()));
    assert_eq!(resolve_entrypoint(&vec![false, true, true]), Ok("dsh/lib/bin.js".to_string()));
    assert_eq!(
        resolve_entrypoint(&vec![false, false, true]),
        Ok("dsh/apps/cli/lib/bin.js".to_string())
    );
    assert_eq!(
        resolve_entrypoint(&vec![false, false, false, true]),
        Err("built dsh entrypoint was not found; run pnpm run build first".to_string())
    );
}

#[test]
fn builds_the_server_command_line() {
    assert_eq!(launch_arguments(3080), vec!["web", "--host", "127.0.0.1", "--port", "3080"]);
    assert_eq!(
        launch_environment("/data".to_string()),
        vec![
            ("DSH_HOME".to_string(), "/data".to_string()),
            ("DSH_DESKTOP".to_string(), "1".to_string())
        ]
    );
    assert_eq!(group_kill_arguments(TERMINATE_SIGNAL, 4321), vec!["-TERM", "-4321"]);
    assert_eq!(group_kill_arguments(KILL_SIGNAL, 9), vec!["-KILL", "-9"]);
    assert_eq!(taskkill_arguments(4321), vec!["/PID", "4321", "/T", "/F"]);
}
