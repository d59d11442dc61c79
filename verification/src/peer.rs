//! Who is on the other end of a connection, and who may be.

use vstd::prelude::*;

use crate::error::{refuse, MineCode, MineError, RefusalKind};

verus! {

/// The credentials of the process at the other end of a stream.
#[derive(Clone, Copy, Debug, PartialEq, Eq, Hash)]
pub struct Peer {
    /// Effective user id.
    pub uid: u32,
    /// Effective group id.
    pub gid: u32,
    /// Process id, where the OS reports it.
    pub pid: Option<i32>,
}

impl Peer {
    /// The peer as a kernel reports it with a group list (macOS, iOS): the
    /// first group is the gid, and `u32::MAX` stands in when the list is
    /// empty.
    pub fn from_groups(uid: u32, groups: &[u32], pid: Option<i32>) -> (p: Peer)
        ensures
            p.uid == uid,
            p.gid == (if groups@.len() > 0 { groups@[0] } else { u32::MAX }),
            p.pid == pid,
    {
        let gid = if groups.len() > 0 { groups[0] } else { u32::MAX };
        Peer { uid, gid, pid }
    }
}

/// A peer is admitted when its uid is listed, or its gid is listed.
pub open spec fn admitted(uids: Seq<u32>, gids: Seq<u32>, peer: Peer) -> bool {
    uids.contains(peer.uid) || gids.contains(peer.gid)
}

/// Calls `nix::unistd::geteuid` and hands back the uid's raw value. The
/// result is this process's effective uid, which depends on the process:
/// nothing is stated of it.
#[verifier::external_body]
fn effective_uid() -> u32 {
    nix::unistd::geteuid().as_raw()
}

fn vec_contains(v: &Vec<u32>, x: u32) -> (b: bool)
    ensures
        b == v@.contains(x),
{
    let mut i: usize = 0;
    while i < v.len()
        invariant
            i <= v.len(),
            forall|j: int| 0 <= j < i ==> v@[j] != x,
        decreases v.len() - i,
    {
        if v[i] == x {
            assert(v@[i as int] == x);
            return true;
        }
        i += 1;
    }
    false
}

/// Which peers a listener accepts.
///
/// A peer is admitted when its uid is listed, or its gid is listed. The
/// socket file's mode already keeps most strangers out; this is the check
/// that does not depend on the filesystem.
#[derive(Clone, Debug, PartialEq, Eq)]
pub struct Admit {
    uids: Vec<u32>,
    gids: Vec<u32>,
}

impl Admit {
    /// The admitted uids.
    pub closed spec fn spec_uids(&self) -> Seq<u32> {
        self.uids@
    }

    /// The admitted gids.
    pub closed spec fn spec_gids(&self) -> Seq<u32> {
        self.gids@
    }

    /// Only this process's effective uid.
    pub fn me() -> (a: Self)
        ensures
            a.spec_uids().len() == 1,
            a.spec_gids() == Seq::<u32>::empty(),
    {
        Self::uid(effective_uid())
    }

    /// Only the given uid.
    pub fn uid(uid: u32) -> (a: Self)
        ensures
            a.spec_uids() == seq![uid],
            a.spec_gids() == Seq::<u32>::empty(),
    {
        Admit { uids: vec![uid], gids: Vec::new() }
    }

    /// Only the given gid.
    pub fn gid(gid: u32) -> (a: Self)
        ensures
            a.spec_uids() == Seq::<u32>::empty(),
            a.spec_gids() == seq![gid],
    {
        Admit { uids: Vec::new(), gids: vec![gid] }
    }

    /// Also admit this uid.
    pub fn also_uid(self, uid: u32) -> (a: Self)
        ensures
            a.spec_uids() == self.spec_uids().push(uid),
            a.spec_gids() == self.spec_gids(),
    {
        let mut a = self;
        a.uids.push(uid);
        a
    }

    /// Also admit this gid.
    pub fn also_gid(self, gid: u32) -> (a: Self)
        ensures
            a.spec_uids() == self.spec_uids(),
            a.spec_gids() == self.spec_gids().push(gid),
    {
        let mut a = self;
        a.gids.push(gid);
        a
    }

    /// The admitted uids.
    pub fn uids(&self) -> (s: &[u32])
        ensures
            s@ == self.spec_uids(),
    {
        self.uids.as_slice()
    }

    /// The admitted gids.
    pub fn gids(&self) -> (s: &[u32])
        ensures
            s@ == self.spec_gids(),
    {
        self.gids.as_slice()
    }

    /// Whether `peer` is admitted.
    pub fn admits(&self, peer: &Peer) -> (b: bool)
        ensures
            b == admitted(self.spec_uids(), self.spec_gids(), *peer),
    {
        vec_contains(&self.uids, peer.uid) || vec_contains(&self.gids, peer.gid)
    }

    /// Let `peer` in, or refuse it with [`RefusalKind::PermissionDenied`]
    /// carrying [`MineCode::PeerRefused`]: what a listener decides after
    /// accepting a connection and before reading a byte of it.
    pub fn screen(&self, peer: Peer) -> (r: Result<Peer, MineError>)
        ensures
            admitted(self.spec_uids(), self.spec_gids(), peer) ==> r == Ok::<Peer, MineError>(peer),
            !admitted(self.spec_uids(), self.spec_gids(), peer) ==> r == Err::<Peer, MineError>(
                MineError {
                    kind: RefusalKind::PermissionDenied,
                    code: MineCode::PeerRefused { uid: peer.uid, gid: peer.gid },
                },
            ),
    {
        if self.admits(&peer) {
            Ok(peer)
        } else {
            Err(refuse(RefusalKind::PermissionDenied, MineCode::PeerRefused { uid: peer.uid, gid: peer.gid }))
        }
    }
}

impl Default for Admit {
    /// An empty policy: it admits no one.
    fn default() -> (a: Self)
        ensures
            a.spec_uids() == Seq::<u32>::empty(),
            a.spec_gids() == Seq::<u32>::empty(),
    {
        Admit { uids: Vec::new(), gids: Vec::new() }
    }
}

} // verus!
