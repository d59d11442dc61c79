//! The library's decisions on concrete values.

use std::time::Duration;

use abut::AbutError;
use classified::Expose;
use mine::classified_frames::{classify_frame, RecvError};
use mine::{
    check_datagram_sent, code_of, join_path, unlink_if_socket, FileKind, UnlinkStep, push_decimal, render_coded, runtime_dir_from, socket_options, Admit,
    ConfigBuilder, DatagramBuilder, MineCode, Peer, RefusalKind, SocketStep, StreamBuilder,
};

#[test]
fn codes_render_with_prefix_padded_number_and_message() {
    let refused = MineCode::PeerRefused { uid: 1000, gid: 1000 };
    assert_eq!(refused.to_string(), "[MINE0004] Refused connection from uid 1000 gid 1000");
    assert_eq!(refused.code(), "MINE0004");
    assert_eq!(refused.code_id(), 4);
    assert_eq!(refused.message(), "Refused connection from uid 1000 gid 1000");
    let short = MineCode::ShortDatagram { sent: 3, len: 10 };
    assert_eq!(short.render(), "[MINE0005] Short datagram send: 3 of 10 bytes");
    let nas = MineCode::NotASocket { path: "/tmp/x".to_string() };
    assert_eq!(nas.to_string(), "[MINE0002] /tmp/x exists and is not a unix socket");
    let link = MineCode::RefusedSymlink { path: "/tmp/l".to_string() };
    assert_eq!(link.to_string(), "[MINE0001] Refusing to unlink a symlink at the socket path /tmp/l");
    assert_eq!(render_coded(12345, "wide"), "[MINE12345] wide");
    assert_eq!(render_coded(42, "x"), "[MINE0042] x");
    assert_eq!(render_coded(0, ""), "[MINE0000] ");
}

#[test]
fn every_code_has_its_own_number() {
    let codes = [
        MineCode::RefusedSymlink { path: String::new() },
        MineCode::NotASocket { path: String::new() },
        MineCode::NonblockingWithTimeout,
        MineCode::PeerRefused { uid: 0, gid: 0 },
        MineCode::ShortDatagram { sent: 0, len: 0 },
    ];
    let ids: Vec<u16> = codes.iter().map(|c| c.code_id()).collect();
    assert_eq!(ids, vec![1, 2, 3, 4, 5]);
}

#[test]
fn decimals_read_back() {
    for n in [0u64, 7, 10, 99, 100, 1000, 65535, 4294967295, u64::MAX] {
        let mut s = String::from("x");
        push_decimal(&mut s, n);
        assert_eq!(s, format!("x{n}"));
    }
}

#[test]
fn paths_push_like_unix_paths() {
    assert_eq!(join_path("/run/user/1000", "app"), "/run/user/1000/app");
    assert_eq!(join_path("/tmp/", "app"), "/tmp/app");
    assert_eq!(join_path("", "app"), "app");
    assert_eq!(join_path("/tmp", "/etc/app"), "/etc/app", "an absolute segment replaces the base");
    assert_eq!(join_path("/tmp", ""), "/tmp/");
    assert_eq!(mine::default_socket_path("/tmp/", "app", "ctl"), "/tmp/app/ctl.sock");
}

#[test]
fn the_runtime_dir_is_xdg_when_it_is_a_directory() {
    let xdg = Some("/run/user/1000".to_string());
    assert_eq!(runtime_dir_from(xdg.clone(), true, "/tmp".to_string()), "/run/user/1000");
    assert_eq!(runtime_dir_from(xdg, false, "/tmp".to_string()), "/tmp");
    assert_eq!(runtime_dir_from(None, true, "/tmp".to_string()), "/tmp");
}

#[test]
fn plans_follow_the_config() {
    let cfg = ConfigBuilder::new()
        .read_timeout(Duration::from_millis(200))
        .write_timeout(Duration::from_secs(1))
        .umask_mode()
        .build();
    let stream = StreamBuilder::with_config(cfg.clone());
    assert_eq!(
        stream.bind_plan().unwrap(),
        vec![SocketStep::CreateParentDir, SocketStep::UnlinkIfSocket, SocketStep::Bind, SocketStep::SetNonblocking(false)]
    );
    assert_eq!(
        stream.connect_plan().unwrap(),
        vec![
            SocketStep::Connect,
            SocketStep::SetNonblocking(false),
            SocketStep::SetReadTimeout(Some(Duration::from_millis(200))),
            SocketStep::SetWriteTimeout(Some(Duration::from_secs(1))),
        ]
    );
    let dgram = DatagramBuilder::with_config(cfg.clone());
    assert_eq!(
        dgram.connect_plan().unwrap(),
        vec![
            SocketStep::Unbound,
            SocketStep::Connect,
            SocketStep::SetNonblocking(false),
            SocketStep::SetReadTimeout(Some(Duration::from_millis(200))),
            SocketStep::SetWriteTimeout(Some(Duration::from_secs(1))),
        ]
    );
    let bound = DatagramBuilder::new().connect_bound_plan().unwrap();
    assert_eq!(
        bound,
        vec![
            SocketStep::CreateParentDir,
            SocketStep::UnlinkIfSocket,
            SocketStep::Bind,
            SocketStep::SetNonblocking(false),
            SocketStep::SetReadTimeout(None),
            SocketStep::SetWriteTimeout(None),
            SocketStep::SetMode(0o600),
            SocketStep::Connect,
        ]
    );
    assert_eq!(socket_options(&cfg).len(), 3);
}

#[test]
fn a_conflicting_config_refuses_every_plan() {
    let bad = ConfigBuilder::new().nonblocking(true).write_timeout(Duration::from_secs(1)).build();
    assert!(bad.validate().is_err());
    let nonblocking = ConfigBuilder::new().nonblocking(true).build();
    assert!(nonblocking.validate().is_ok(), "non-blocking without timeouts is fine");
    let blocking = ConfigBuilder::new().read_timeout(Duration::from_secs(1)).build();
    assert!(blocking.validate().is_ok(), "blocking with timeouts is fine");
    for err in [
        StreamBuilder::with_config(bad.clone()).connect_plan().unwrap_err(),
        DatagramBuilder::with_config(bad.clone()).bind_plan().unwrap_err(),
        DatagramBuilder::with_config(bad.clone()).connect_plan().unwrap_err(),
        DatagramBuilder::with_config(bad).connect_bound_plan().unwrap_err(),
    ] {
        assert_eq!(err.kind(), RefusalKind::InvalidInput);
        assert_eq!(code_of(&err), Some(&MineCode::NonblockingWithTimeout));
    }
}

#[test]
fn a_short_datagram_is_refused() {
    assert!(check_datagram_sent(5, 5).is_ok());
    let err = check_datagram_sent(3, 5).unwrap_err();
    assert_eq!(err.kind(), RefusalKind::WriteZero);
    assert_eq!(code_of(&err), Some(&MineCode::ShortDatagram { sent: 3, len: 5 }));
    assert_eq!(err.to_string(), "[MINE0005] Short datagram send: 3 of 5 bytes");
}

#[test]
fn a_group_list_names_the_gid() {
    let p = Peer::from_groups(501, &[20, 12, 61], Some(77));
    assert_eq!(p, Peer { uid: 501, gid: 20, pid: Some(77) });
    let q = Peer::from_groups(501, &[], None);
    assert_eq!(q.gid, u32::MAX);
}

#[test]
fn policies_only_widen() {
    let stranger = Peer { uid: 4242, gid: 4343, pid: None };
    let policy = Admit::uid(1).also_gid(2);
    assert!(!policy.admits(&stranger));
    let wider = policy.also_uid(4242);
    assert!(wider.admits(&stranger));
    assert_eq!(wider.uids(), &[1, 4242]);
    assert_eq!(wider.gids(), &[2]);
    assert!(Admit::gid(4343).admits(&stranger));
    assert_eq!(Admit::me().uids().len(), 1);
    assert!(Admit::me().gids().is_empty());
}

#[test]
fn a_frame_becomes_a_container_holding_exactly_its_bytes() {
    let frame = b"0123456789abcdef".to_vec();
    let buffer = classify_frame(frame.clone()).unwrap();
    assert_eq!(buffer.len(), 16);
    assert_eq!(buffer.capacity_limit(), 16);
    let held = Expose::expose(&buffer, |view| view.as_bytes().to_vec());
    assert_eq!(held, frame);
    assert!(matches!(classify_frame(vec![]), Err(RecvError::Empty(_))));
}

#[test]
fn a_frame_that_could_not_be_read_renders_as_the_framing_error() {
    let err = RecvError::Frame(AbutError::frame_too_large(100, 16));
    assert_eq!(err.to_string(), "[ABUT0003] Frame too large: len 100 exceeds max 16");
}

#[test]
fn unlinking_twice_leaves_the_path_alone() {
    assert_eq!(unlink_if_socket("/tmp/a.sock", FileKind::Socket), Ok(UnlinkStep::Remove));
    // the socket is gone now: the second decision is to leave the path alone
    assert_eq!(unlink_if_socket("/tmp/a.sock", FileKind::Missing), Ok(UnlinkStep::Nothing));
    assert_eq!(unlink_if_socket("/tmp/a.sock", FileKind::Missing), Ok(UnlinkStep::Nothing));
}
