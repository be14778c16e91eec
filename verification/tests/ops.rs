use process_ops::errors::OpError;
use process_ops::kill::{plan_kill, KillRequest};
use process_ops::perms::Permissions;
use process_ops::registry::{Entry, Registry};
use process_ops::run::{plan_run, SpawnRequest};
use process_ops::status::exit_result;
use process_ops::stdio::{route_stream, subprocess_stdio_map, StdioMode, StreamRoute};

fn request(cmd: Vec<&str>, stdin_rid: u32, stdout_rid: u32, stderr_rid: u32) -> SpawnRequest {
    SpawnRequest {
        cmd: cmd.into_iter().map(|s| s.to_string()).collect(),
        cwd: None,
        env: Vec::new(),
        stdin: "inherit".to_string(),
        stdout: "piped".to_string(),
        stderr: "null".to_string(),
        stdin_rid,
        stdout_rid,
        stderr_rid,
    }
}

fn runtime() -> tokio::runtime::Runtime {
    tokio::runtime::Builder::new_current_thread()
        .enable_all()
        .build()
        .expect("runtime")
}

#[test]
fn stdio_modes_resolve() {
    assert_eq!(subprocess_stdio_map("inherit"), StdioMode::Inherit);
    assert_eq!(subprocess_stdio_map("piped"), StdioMode::Piped);
    assert_eq!(subprocess_stdio_map("null"), StdioMode::Null);
}

#[test]
fn identifier_takes_precedence_over_mode() {
    assert_eq!(route_stream("inherit", 5), StreamRoute::Duplicate(5));
    assert_eq!(route_stream("piped", 1), StreamRoute::Duplicate(1));
    assert_eq!(
        route_stream("piped", 0),
        StreamRoute::Configure(StdioMode::Piped)
    );
}

#[test]
fn denied_gate_blocks_spawn_status_and_kill() {
    let perms = Permissions::new(false);
    let reg = Registry::new();
    let r = plan_run(&perms, &reg, request(vec!["sh"], 0, 0, 0));
    assert_eq!(r.unwrap_err(), OpError::PermissionDenied);
    let k = plan_kill(&perms, KillRequest { pid: 1, signo: 15 });
    assert_eq!(k.unwrap_err(), OpError::PermissionDenied);
    assert_eq!(perms.check_run().unwrap_err(), OpError::PermissionDenied);
}

#[test]
fn granted_gate_plans_the_request() {
    let perms = Permissions::new(true);
    let reg = Registry::new();
    let plan = plan_run(&perms, &reg, request(vec!["sh", "-c", "true"], 0, 0, 0)).unwrap();
    assert_eq!(plan.cmd, vec!["sh", "-c", "true"]);
    assert_eq!(plan.stdin, StreamRoute::Configure(StdioMode::Inherit));
    assert_eq!(plan.stdout, StreamRoute::Configure(StdioMode::Piped));
    assert_eq!(plan.stderr, StreamRoute::Configure(StdioMode::Null));
    assert!(plan.kill_on_drop);
    let k = plan_kill(&perms, KillRequest { pid: 7, signo: 9 }).unwrap();
    assert_eq!((k.pid, k.signo), (7, 9));
}

#[test]
fn unknown_identifier_is_bad_resource_immediately() {
    let mut reg = Registry::new();
    let r = reg.take_process(7);
    assert_eq!(r.unwrap_err(), OpError::BadResourceId);
    let f = reg.take_file(1);
    assert_eq!(f.unwrap_err(), OpError::BadResourceId);
    let s = reg.take_stream(3);
    assert_eq!(s.unwrap_err(), OpError::BadResourceId);
}

#[test]
fn wrong_kind_of_identifier_is_bad_resource() {
    let rt = runtime();
    rt.block_on(async {
        let mut reg = Registry::new();
        let file = tokio::fs::File::open("/dev/null").await.expect("open");
        let rid = reg.register(Entry::File(file));
        // a file is not a process
        assert_eq!(reg.take_process(rid).unwrap_err(), OpError::BadResourceId);
        // and is still registered afterwards
        let back = reg.take_file(rid).expect("still registered");
        reg.restore_file(rid, back);
    });
}

#[test]
fn duplication_from_non_file_is_refused_before_spawn() {
    let rt = runtime();
    rt.block_on(async {
        let perms = Permissions::new(true);
        let mut reg = Registry::new();
        let file = tokio::fs::File::open("/dev/null").await.expect("open");
        let rid = reg.register(Entry::File(file));
        // an identifier nobody was given
        let r = plan_run(&perms, &reg, request(vec!["cat"], rid + 1, 0, 0));
        assert_eq!(r.unwrap_err(), OpError::BadResourceId);
        // a valid duplicable identifier passes the same check
        let ok = plan_run(&perms, &reg, request(vec!["cat"], rid, 0, 0)).unwrap();
        assert_eq!(ok.stdin, StreamRoute::Duplicate(rid));
    });
}

#[test]
fn file_registration_round_trip() {
    let rt = runtime();
    rt.block_on(async {
        let mut reg = Registry::new();
        let a = tokio::fs::File::open("/dev/null").await.expect("open");
        let b = tokio::fs::File::open("/dev/null").await.expect("open");
        let rid_a = reg.register(Entry::File(a));
        let rid_b = reg.register(Entry::File(b));
        assert_ne!(rid_a, rid_b);
        assert!(rid_a >= 1 && rid_b >= 1);
        let taken = reg.take_file(rid_a).expect("registered");
        reg.restore_file(rid_a, taken);
        let removed = reg.remove(rid_a);
        assert!(removed.is_some());
        assert!(!removed.unwrap().must_kill_on_remove());
        assert_eq!(reg.take_file(rid_a).unwrap_err(), OpError::BadResourceId);
        // the other entry is untouched
        let still = reg.take_file(rid_b).expect("registered");
        reg.restore_file(rid_b, still);
    });
}

#[test]
fn exit_report_prefers_code_and_flags_signal() {
    let code = exit_result(Some(42), None);
    assert!(!code.got_signal);
    assert_eq!(code.exit_code, 42);
    assert_eq!(code.exit_signal, -1);

    let sig = exit_result(None, Some(15));
    assert!(sig.got_signal);
    assert_eq!(sig.exit_code, -1);
    assert_eq!(sig.exit_signal, 15);
}
