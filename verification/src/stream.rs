//! Stream sockets: binding a listener, connecting, accepting.

use vstd::prelude::*;

use crate::config::Config;
use crate::error::MineError;
use crate::plan::{
    push_mode_steps, push_prepare_path, push_socket_options, spec_mode_steps, spec_prepare_path,
    spec_socket_options, SocketStep,
};

verus! {

/// Binds listeners and opens connections with one [`Config`].
#[derive(Clone, Debug)]
pub struct StreamBuilder {
    cfg: Config,
}

impl StreamBuilder {
    /// The config this builder opens sockets with.
    pub closed spec fn spec_config(&self) -> Config {
        self.cfg
    }

    /// Binding a listener: make room at the path, bind and guard it, set the
    /// listener's blocking mode, then the socket file's mode if one is named.
    pub open spec fn spec_bind_plan(cfg: Config) -> Seq<SocketStep> {
        spec_prepare_path() + seq![SocketStep::Bind, SocketStep::SetNonblocking(cfg.nonblocking)]
            + spec_mode_steps(cfg)
    }

    /// Connecting: connect, then the stream's options.
    pub open spec fn spec_connect_plan(cfg: Config) -> Seq<SocketStep> {
        seq![SocketStep::Connect] + spec_socket_options(cfg)
    }

    /// The default config: blocking, no timeouts, owner-only socket file.
    pub fn new() -> (b: Self)
        ensures
            b.spec_config() == Config::spec_default(),
    {
        StreamBuilder { cfg: Config::default() }
    }

    /// A specific config.
    pub fn with_config(cfg: Config) -> (b: Self)
        ensures
            b.spec_config() == cfg,
    {
        StreamBuilder { cfg }
    }

    /// The config.
    pub fn config(&self) -> (c: &Config)
        ensures
            *c == self.spec_config(),
    {
        &self.cfg
    }

    /// Bind a listener: refused with the config's own refusal before any
    /// step when the config is conflicting; else create the parent, remove a
    /// stale socket (and only a socket), bind, set the blocking mode, set the
    /// file's mode.
    pub fn bind_plan(&self) -> (r: Result<Vec<SocketStep>, MineError>)
        ensures
            r is Err <==> self.spec_config().conflicting(),
            r matches Err(e) ==> e == Config::conflict_refusal(),
            r matches Ok(steps) ==> steps@ == Self::spec_bind_plan(self.spec_config()),
    {
        self.cfg.validate()?;
        let mut steps = Vec::new();
        push_prepare_path(&mut steps);
        steps.push(SocketStep::Bind);
        steps.push(SocketStep::SetNonblocking(self.cfg.nonblocking));
        push_mode_steps(&mut steps, &self.cfg);
        assert(steps@ =~= Self::spec_bind_plan(self.cfg));
        Ok(steps)
    }

    /// Connect to a socket with this config's options; refused before any
    /// step when the config is conflicting.
    pub fn connect_plan(&self) -> (r: Result<Vec<SocketStep>, MineError>)
        ensures
            r is Err <==> self.spec_config().conflicting(),
            r matches Err(e) ==> e == Config::conflict_refusal(),
            r matches Ok(steps) ==> steps@ == Self::spec_connect_plan(self.spec_config()),
    {
        self.cfg.validate()?;
        let mut steps = Vec::new();
        steps.push(SocketStep::Connect);
        push_socket_options(&mut steps, &self.cfg);
        assert(steps@ =~= Self::spec_connect_plan(self.cfg));
        Ok(steps)
    }
}

impl Default for StreamBuilder {
    fn default() -> (b: Self)
        ensures
            b.spec_config() == Config::spec_default(),
    {
        StreamBuilder::new()
    }
}

} // verus!
