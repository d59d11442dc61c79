//! The steps that open a socket, as the library decides them and the caller
//! performs them in order, stopping at the first failure.

use std::time::Duration;

use vstd::prelude::*;

use crate::config::Config;

verus! {

/// One step of opening a socket.
#[derive(Clone, Copy, Debug, PartialEq, Eq)]
pub enum SocketStep {
    /// Create the parent directory of the socket path if it is missing.
    CreateParentDir,
    /// Look at the socket path without following a symlink, and act as
    /// [`unlink_if_socket`](crate::unlink_if_socket) decides.
    UnlinkIfSocket,
    /// Bind at the socket path; from here on the path is guarded by a
    /// [`SocketPathGuard`](crate::SocketPathGuard).
    Bind,
    /// Open an unbound datagram socket.
    Unbound,
    /// Connect to the destination.
    Connect,
    /// Set the socket's blocking mode.
    SetNonblocking(bool),
    /// Set (or clear) the read timeout.
    SetReadTimeout(Option<Duration>),
    /// Set (or clear) the write timeout.
    SetWriteTimeout(Option<Duration>),
    /// Set the mode bits of the socket file.
    SetMode(u32),
}

/// The options every opened stream, and every datagram socket, gets.
pub open spec fn spec_socket_options(cfg: Config) -> Seq<SocketStep> {
    seq![
        SocketStep::SetNonblocking(cfg.nonblocking),
        SocketStep::SetReadTimeout(cfg.read_timeout),
        SocketStep::SetWriteTimeout(cfg.write_timeout),
    ]
}

/// Setting the socket file's mode, when the config names one.
pub open spec fn spec_mode_steps(cfg: Config) -> Seq<SocketStep> {
    match cfg.socket_mode {
        Some(mode) => seq![SocketStep::SetMode(mode)],
        None => Seq::empty(),
    }
}

/// The steps before a bind: make room at the path, and only by removing a
/// stale socket.
pub open spec fn spec_prepare_path() -> Seq<SocketStep> {
    seq![SocketStep::CreateParentDir, SocketStep::UnlinkIfSocket]
}

/// Append the blocking mode and both timeouts of `cfg` to `steps`.
pub(crate) fn push_socket_options(steps: &mut Vec<SocketStep>, cfg: &Config)
    ensures
        final(steps)@ == old(steps)@ + spec_socket_options(*cfg),
{
    steps.push(SocketStep::SetNonblocking(cfg.nonblocking));
    steps.push(SocketStep::SetReadTimeout(cfg.read_timeout));
    steps.push(SocketStep::SetWriteTimeout(cfg.write_timeout));
    assert(steps@ =~= old(steps)@ + spec_socket_options(*cfg));
}

/// Append setting the socket file's mode, if `cfg` names one.
pub(crate) fn push_mode_steps(steps: &mut Vec<SocketStep>, cfg: &Config)
    ensures
        final(steps)@ == old(steps)@ + spec_mode_steps(*cfg),
{
    if let Some(mode) = cfg.socket_mode {
        steps.push(SocketStep::SetMode(mode));
    }
    assert(steps@ =~= old(steps)@ + spec_mode_steps(*cfg));
}

/// The options a stream or datagram socket opened under `cfg` gets: its
/// blocking mode, then its read and write timeouts.
pub fn socket_options(cfg: &Config) -> (steps: Vec<SocketStep>)
    ensures
        steps@ == spec_socket_options(*cfg),
{
    let mut steps = Vec::new();
    push_socket_options(&mut steps, cfg);
    assert(steps@ =~= spec_socket_options(*cfg));
    steps
}

/// Create the parent directory, then unlink a stale socket.
pub(crate) fn push_prepare_path(steps: &mut Vec<SocketStep>)
    ensures
        final(steps)@ == old(steps)@ + spec_prepare_path(),
{
    steps.push(SocketStep::CreateParentDir);
    steps.push(SocketStep::UnlinkIfSocket);
    assert(steps@ =~= old(steps)@ + spec_prepare_path());
}

} // verus!
