//! The admit policy.

use mine::{code_of, Admit, MineCode, Peer, RefusalKind};

fn my_uid() -> u32 {
    Admit::me().uids()[0]
}

#[test]
fn accept_from_admits_me_and_refuses_a_stranger_policy() {
    let me = Peer { uid: my_uid(), gid: nix::unistd::getegid().as_raw(), pid: None };
    let peer = Admit::me().screen(me).unwrap();
    assert_eq!(peer.uid, my_uid());

    // a policy that names someone else refuses
    let err = Admit::uid(u32::MAX - 1).screen(me).unwrap_err();
    assert_eq!(err.kind(), RefusalKind::PermissionDenied);
    assert!(
        err.to_string().starts_with(&format!("[MINE0004] Refused connection from uid {}", my_uid())),
        "{}",
        err.to_string()
    );
    assert!(matches!(code_of(&err), Some(MineCode::PeerRefused { uid, .. }) if *uid == my_uid()));

    // a group policy admits by gid
    let by_group = Admit::gid(me.gid);
    assert!(by_group.admits(&me));
    assert_eq!(by_group.gids(), &[me.gid]);
    let nobody = Peer { uid: u32::MAX - 1, gid: u32::MAX - 1, pid: None };
    assert!(!by_group.admits(&nobody));
    assert!(Admit::uid(1).also_uid(nobody.uid).admits(&nobody));
    assert!(!Admit::default().admits(&me), "an empty policy admits no one");
}
