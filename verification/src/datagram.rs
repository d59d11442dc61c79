//! Datagram sockets: binding, connecting, and one datagram per frame.

use vstd::prelude::*;

use crate::config::Config;
use crate::error::{refuse, MineCode, MineError, RefusalKind};
use crate::plan::{
    push_mode_steps, push_prepare_path, push_socket_options, spec_mode_steps, spec_prepare_path,
    spec_socket_options, SocketStep,
};

verus! {

/// Binds and connects datagram sockets with one [`Config`].
#[derive(Clone, Debug)]
pub struct DatagramBuilder {
    cfg: Config,
}

impl DatagramBuilder {
    /// The config this builder opens sockets with.
    pub closed spec fn spec_config(&self) -> Config {
        self.cfg
    }

    /// Binding: make room at the path, bind and guard it, set the socket's
    /// options, then the socket file's mode if one is named.
    pub open spec fn spec_bind_plan(cfg: Config) -> Seq<SocketStep> {
        spec_prepare_path() + seq![SocketStep::Bind] + spec_socket_options(cfg) + spec_mode_steps(cfg)
    }

    /// Connecting: an unbound socket, connected to the destination, with the
    /// config's options.
    pub open spec fn spec_connect_plan(cfg: Config) -> Seq<SocketStep> {
        seq![SocketStep::Unbound, SocketStep::Connect] + spec_socket_options(cfg)
    }

    /// A socket bound at a local path, then connected to the destination.
    pub open spec fn spec_connect_bound_plan(cfg: Config) -> Seq<SocketStep> {
        Self::spec_bind_plan(cfg) + seq![SocketStep::Connect]
    }

    /// The default config.
    pub fn new() -> (b: Self)
        ensures
            b.spec_config() == Config::spec_default(),
    {
        DatagramBuilder { cfg: Config::default() }
    }

    /// A specific config.
    pub fn with_config(cfg: Config) -> (b: Self)
        ensures
            b.spec_config() == cfg,
    {
        DatagramBuilder { cfg }
    }

    /// The config.
    pub fn config(&self) -> (c: &Config)
        ensures
            *c == self.spec_config(),
    {
        &self.cfg
    }

    /// Bind with the same path care as a stream listener.
    pub fn bind_plan(&self) -> (r: Result<Vec<SocketStep>, MineError>)
        ensures
            r is Err <==> self.spec_config().conflicting(),
            r matches Err(e) ==> e == Config::conflict_refusal(),
            r matches Ok(steps) ==> steps@ == Self::spec_bind_plan(self.spec_config()),
    {
        self.cfg.validate()?;
        let mut steps = Vec::new();
        push_prepare_path(&mut steps);
        steps.push(SocketStep::Bind);
        push_socket_options(&mut steps, &self.cfg);
        push_mode_steps(&mut steps, &self.cfg);
        assert(steps@ =~= Self::spec_bind_plan(self.cfg));
        Ok(steps)
    }

    /// An unbound socket connected to the destination: it can send, and only
    /// the destination can be its peer.
    pub fn connect_plan(&self) -> (r: Result<Vec<SocketStep>, MineError>)
        ensures
            r is Err <==> self.spec_config().conflicting(),
            r matches Err(e) ==> e == Config::conflict_refusal(),
            r matches Ok(steps) ==> steps@ == Self::spec_connect_plan(self.spec_config()),
    {
        self.cfg.validate()?;
        let mut steps = Vec::new();
        steps.push(SocketStep::Unbound);
        steps.push(SocketStep::Connect);
        push_socket_options(&mut steps, &self.cfg);
        assert(steps@ =~= Self::spec_connect_plan(self.cfg));
        Ok(steps)
    }

    /// A socket bound at a local path and connected to the destination, so
    /// replies have somewhere to go; the local path is guarded like any
    /// bound socket.
    pub fn connect_bound_plan(&self) -> (r: Result<Vec<SocketStep>, MineError>)
        ensures
            r is Err <==> self.spec_config().conflicting(),
            r matches Err(e) ==> e == Config::conflict_refusal(),
            r matches Ok(steps) ==> steps@ == Self::spec_connect_bound_plan(self.spec_config()),
    {
        let mut steps = self.bind_plan()?;
        steps.push(SocketStep::Connect);
        assert(steps@ =~= Self::spec_connect_bound_plan(self.cfg));
        Ok(steps)
    }
}

impl Default for DatagramBuilder {
    fn default() -> (b: Self)
        ensures
            b.spec_config() == Config::spec_default(),
    {
        DatagramBuilder::new()
    }
}

/// A datagram carries a whole frame or it is a refusal: when the kernel took
/// fewer bytes than the frame holds, [`RefusalKind::WriteZero`] carrying
/// [`MineCode::ShortDatagram`].
pub fn check_datagram_sent(sent: usize, len: usize) -> (r: Result<(), MineError>)
    ensures
        r is Ok <==> sent == len,
        r matches Err(e) ==> e == (MineError {
            kind: RefusalKind::WriteZero,
            code: MineCode::ShortDatagram { sent, len },
        }),
{
    if sent != len {
        return Err(refuse(RefusalKind::WriteZero, MineCode::ShortDatagram { sent, len }));
    }
    Ok(())
}

} // verus!
