//! Path care, config checks and the plans behind binds and connects.

use std::time::Duration;

use mine::{
    code_of, default_socket_path, unlink_if_socket, Config, ConfigBuilder, DatagramBuilder, FileKind, MineCode,
    RefusalKind, SocketPathGuard, SocketStep, StreamBuilder, UnlinkStep,
};

fn scratch(name: &str) -> String {
    format!("/tmp/mine-tests-{name}")
}

#[test]
fn a_bind_refuses_to_destroy_anything_that_is_not_a_socket() {
    let dir = scratch("path");
    let file = format!("{dir}/file");
    let err = unlink_if_socket(&file, FileKind::Other).unwrap_err();
    assert_eq!(err.kind(), RefusalKind::AlreadyExists);
    assert_eq!(code_of(&err), Some(&MineCode::NotASocket { path: file.clone() }));
    assert!(err.to_string().starts_with("[MINE0002] "), "{}", err.to_string());

    let link = format!("{dir}/link");
    let err = unlink_if_socket(&link, FileKind::Symlink).unwrap_err();
    assert_eq!(err.kind(), RefusalKind::AlreadyExists);
    assert!(matches!(code_of(&err), Some(MineCode::RefusedSymlink { .. })));
    assert!(err.to_string().starts_with("[MINE0001] Refusing to unlink a symlink"), "{}", err.to_string());

    assert!(unlink_if_socket(&format!("{dir}/absent"), FileKind::Missing).is_ok(), "nothing there is fine");
    assert_eq!(unlink_if_socket(&format!("{dir}/absent"), FileKind::Missing), Ok(UnlinkStep::Nothing));
}

#[test]
fn a_stale_socket_is_replaced_and_the_guard_removes_the_path() {
    let dir = scratch("stale");
    let path = format!("{dir}/app.sock");
    assert_eq!(unlink_if_socket(&path, FileKind::Socket), Ok(UnlinkStep::Remove), "a stale socket is removed");

    let guard = SocketPathGuard::new(path.clone());
    assert_eq!(guard.path(), path);
    assert_eq!(guard.removal_target(), Some(path.as_str()), "removed on drop");

    let mut guard = SocketPathGuard::new(path.clone());
    guard.set_keep(true);
    assert_eq!(guard.removal_target(), None, "kept on purpose");
    let back = guard.disarm();
    assert_eq!(back, path);
}

#[test]
fn the_socket_file_is_owner_only_by_default() {
    let plan = StreamBuilder::new().bind_plan().unwrap();
    assert_eq!(plan.last(), Some(&SocketStep::SetMode(0o600)));

    let cfg = ConfigBuilder::new().socket_mode(0o660).build();
    let plan = StreamBuilder::with_config(cfg).bind_plan().unwrap();
    assert_eq!(plan.last(), Some(&SocketStep::SetMode(0o660)));

    let plan = DatagramBuilder::new().bind_plan().unwrap();
    assert_eq!(plan.last(), Some(&SocketStep::SetMode(0o600)));
}

#[test]
fn config_refuses_nonblocking_with_timeouts() {
    let bad = ConfigBuilder::new().nonblocking(true).read_timeout(Duration::from_millis(5)).build();
    let err = bad.validate().unwrap_err();
    assert_eq!(err.kind(), RefusalKind::InvalidInput);
    assert_eq!(code_of(&err), Some(&MineCode::NonblockingWithTimeout));
    assert_eq!(err.to_string(), "[MINE0003] nonblocking is incompatible with read_timeout and write_timeout");
    // and a bind with it is refused the same way
    let err = StreamBuilder::with_config(bad).bind_plan().unwrap_err();
    assert_eq!(code_of(&err), Some(&MineCode::NonblockingWithTimeout));

    let cfg = ConfigBuilder::new().umask_mode().write_timeout(Duration::from_secs(1)).build();
    assert_eq!(cfg.socket_mode, None);
    assert_eq!(Config::default().socket_mode, Some(0o600));
}

#[test]
fn runtime_paths_have_the_documented_shape() {
    let p = default_socket_path("/run/user/1000", "myapp", "control");
    assert!(p.ends_with("myapp/control.sock"), "{p}");
    assert_eq!(p, "/run/user/1000/myapp/control.sock");
}
