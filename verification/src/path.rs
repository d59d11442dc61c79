//! The socket path: where it goes, what may be removed there, and when the
//! file is cleaned up.

use vstd::prelude::*;
use vstd::string::*;

use crate::error::{refuse, MineCode, MineError, RefusalKind};

verus! {

/// `base` with `segment` pushed onto it, as a Unix path: an absolute
/// segment replaces the base, otherwise a `/` separates the two unless the
/// base is empty or already ends in one.
pub open spec fn pushed(base: Seq<char>, segment: Seq<char>) -> Seq<char> {
    if segment.len() > 0 && segment[0] == '/' {
        segment
    } else if base.len() == 0 || base.last() == '/' {
        base + segment
    } else {
        base + seq!['/'] + segment
    }
}

/// `<runtime_dir>/<app>/<name>.sock`.
pub open spec fn spec_socket_path(runtime_dir: Seq<char>, app: Seq<char>, name: Seq<char>) -> Seq<char> {
    pushed(pushed(runtime_dir, app), name + ".sock"@)
}

/// Push `segment` onto the path `base`.
pub fn join_path(base: &str, segment: &str) -> (p: String)
    ensures
        p@ == pushed(base@, segment@),
{
    proof { reveal_strlit("/"); }
    let seg_len = segment.unicode_len();
    if seg_len > 0 && segment.get_char(0) == '/' {
        return segment.to_owned();
    }
    let base_len = base.unicode_len();
    let mut p = base.to_owned();
    if base_len > 0 && base.get_char(base_len - 1) != '/' {
        p.append("/");
    }
    p.append(segment);
    p
}

/// `<runtime_dir>/<app>/<name>.sock`, for example
/// `/run/user/1000/myapp/control.sock`.
pub fn default_socket_path(runtime_dir: &str, app: &str, name: &str) -> (p: String)
    ensures
        p@ == spec_socket_path(runtime_dir@, app@, name@),
{
    let dir = join_path(runtime_dir, app);
    let mut file = name.to_owned();
    file.append(".sock");
    join_path(dir.as_str(), file.as_str())
}

/// The directory for this user's runtime sockets: `$XDG_RUNTIME_DIR` when it
/// is set and is a directory, else the system temp directory.
pub fn runtime_dir_from(xdg_runtime_dir: Option<String>, xdg_is_dir: bool, temp_dir: String) -> (d: String)
    ensures
        d == (if xdg_runtime_dir is Some && xdg_is_dir { xdg_runtime_dir->0 } else { temp_dir }),
{
    match xdg_runtime_dir {
        Some(dir) if xdg_is_dir => dir,
        _ => temp_dir,
    }
}

/// What was found at a socket path, without following a symlink.
#[derive(Clone, Copy, Debug, PartialEq, Eq, Structural)]
pub enum FileKind {
    /// Nothing is there.
    Missing,
    /// A symbolic link.
    Symlink,
    /// A Unix socket.
    Socket,
    /// A regular file, a directory, or anything else.
    Other,
}

/// What to do at a socket path before binding.
#[derive(Clone, Copy, Debug, PartialEq, Eq, Structural)]
pub enum UnlinkStep {
    /// Leave the path alone: nothing is there.
    Nothing,
    /// Remove the stale socket.
    Remove,
}

/// `e` refuses to unlink the symlink at `path`.
pub open spec fn is_symlink_refusal(e: MineError, path: Seq<char>) -> bool {
    &&& e.kind == RefusalKind::AlreadyExists
    &&& e.code matches MineCode::RefusedSymlink { path: p }
    &&& p@ == path
}

/// `e` refuses to unlink the thing at `path` that is not a socket.
pub open spec fn is_not_a_socket_refusal(e: MineError, path: Seq<char>) -> bool {
    &&& e.kind == RefusalKind::AlreadyExists
    &&& e.code matches MineCode::NotASocket { path: p }
    &&& p@ == path
}

/// What may be done at a socket path given what is found there: `None` is a
/// refusal.
pub open spec fn spec_unlink_step(found: FileKind) -> Option<UnlinkStep> {
    match found {
        FileKind::Missing => Some(UnlinkStep::Nothing),
        FileKind::Socket => Some(UnlinkStep::Remove),
        _ => None,
    }
}

/// What is at the path once `step` has been performed where `found` was:
/// a removed socket leaves nothing, and leaving nothing alone leaves nothing.
pub open spec fn spec_after_step(found: FileKind, step: UnlinkStep) -> FileKind {
    match step {
        UnlinkStep::Remove => FileKind::Missing,
        UnlinkStep::Nothing => found,
    }
}

/// Unlinking is idempotent: once a decision to remove a stale socket or to
/// leave an empty path alone has been carried out, deciding again at the
/// same path leaves it alone.
pub proof fn lemma_unlink_is_idempotent(found: FileKind)
    requires
        spec_unlink_step(found) is Some,
    ensures
        spec_unlink_step(spec_after_step(found, spec_unlink_step(found)->0)) == Some(UnlinkStep::Nothing),
{
}

/// Decide what may be removed at `path`, given what is there: a stale
/// socket is removed, nothing there is fine, and a symlink or anything that
/// is not a socket is refused with [`RefusalKind::AlreadyExists`]: a bind
/// must never destroy something that is not a socket.
pub fn unlink_if_socket(path: &str, found: FileKind) -> (r: Result<UnlinkStep, MineError>)
    ensures
        r is Ok <==> spec_unlink_step(found) is Some,
        r matches Ok(step) ==> spec_unlink_step(found) == Some(step),
        r == Ok::<UnlinkStep, MineError>(UnlinkStep::Remove) <==> found == FileKind::Socket,
        found == FileKind::Missing ==> r == Ok::<UnlinkStep, MineError>(UnlinkStep::Nothing),
        found == FileKind::Socket ==> r == Ok::<UnlinkStep, MineError>(UnlinkStep::Remove),
        found == FileKind::Symlink ==> (r is Err && is_symlink_refusal(r->Err_0, path@)),
        found == FileKind::Other ==> (r is Err && is_not_a_socket_refusal(r->Err_0, path@)),
{
    match found {
        FileKind::Missing => Ok(UnlinkStep::Nothing),
        FileKind::Socket => Ok(UnlinkStep::Remove),
        FileKind::Symlink => Err(refuse(RefusalKind::AlreadyExists, MineCode::RefusedSymlink { path: path.to_owned() })),
        FileKind::Other => Err(refuse(RefusalKind::AlreadyExists, MineCode::NotASocket { path: path.to_owned() })),
    }
}

/// Says whether a socket file is removed when its owner lets go, unless told
/// to keep it.
///
/// Every bound listener and datagram holds one, so a normal shutdown leaves
/// no stale socket behind. Call [`set_keep`](Self::set_keep) or
/// [`disarm`](Self::disarm) when another process is meant to take over the
/// path.
#[derive(Debug)]
pub struct SocketPathGuard {
    path: String,
    keep: bool,
}

impl SocketPathGuard {
    /// The guarded path.
    pub closed spec fn spec_path(&self) -> Seq<char> {
        self.path@
    }

    /// Whether the file is to be left in place.
    pub closed spec fn spec_keep(&self) -> bool {
        self.keep
    }

    /// Guard `path`.
    pub fn new(path: String) -> (g: Self)
        ensures
            g.spec_path() == path@,
            !g.spec_keep(),
    {
        SocketPathGuard { path, keep: false }
    }

    /// The guarded path.
    pub fn path(&self) -> (p: &str)
        ensures
            p@ == self.spec_path(),
    {
        self.path.as_str()
    }

    /// Whether to leave the file in place on drop.
    pub fn set_keep(&mut self, keep: bool)
        ensures
            final(self).spec_path() == old(self).spec_path(),
            final(self).spec_keep() == keep,
    {
        self.keep = keep;
    }

    /// Take the path out; the file is left in place.
    pub fn disarm(self) -> (p: String)
        ensures
            p@ == self.spec_path(),
    {
        self.path
    }

    /// The file to remove when the guard's owner drops: the path, unless it
    /// is kept.
    pub fn removal_target(&self) -> (t: Option<&str>)
        ensures
            t is Some <==> !self.spec_keep(),
            t matches Some(p) ==> p@ == self.spec_path(),
    {
        if self.keep {
            None
        } else {
            Some(self.path.as_str())
        }
    }
}

} // verus!
