//! How a socket is opened.

use std::time::Duration;

use vstd::prelude::*;

use crate::error::{refuse, MineCode, MineError, RefusalKind};

verus! {

/// The owner-only mode every socket file gets unless told otherwise.
pub const OWNER_ONLY: u32 = 0o600;

/// How a socket is opened.
///
/// The default is blocking, no timeouts, and a socket file mode of `0o600`:
/// only the owner may connect. Loosen the mode on purpose (`0o660` for a
/// group) rather than by accident.
#[derive(Clone, Debug, PartialEq, Eq)]
pub struct Config {
    /// Put the socket in non-blocking mode. Incompatible with the timeouts.
    pub nonblocking: bool,
    /// Read timeout applied to every stream this config opens.
    pub read_timeout: Option<Duration>,
    /// Write timeout applied to every stream this config opens.
    pub write_timeout: Option<Duration>,
    /// Mode bits set on the socket file after bind; `None` leaves the umask's result.
    pub socket_mode: Option<u32>,
}

impl Config {
    /// The defaults: blocking, no timeouts, owner-only socket file.
    pub open spec fn spec_default() -> Config {
        Config { nonblocking: false, read_timeout: None, write_timeout: None, socket_mode: Some(OWNER_ONLY) }
    }

    /// Non-blocking with a timeout: the OS would ignore one of them.
    pub open spec fn conflicting(&self) -> bool {
        self.nonblocking && (self.read_timeout is Some || self.write_timeout is Some)
    }

    /// The refusal a conflicting config gets.
    pub open spec fn conflict_refusal() -> MineError {
        MineError { kind: RefusalKind::InvalidInput, code: MineCode::NonblockingWithTimeout }
    }

    /// Refuse a nonblocking socket with timeouts: the OS ignores one of them.
    /// The refusal is [`RefusalKind::InvalidInput`] carrying
    /// [`MineCode::NonblockingWithTimeout`].
    pub fn validate(&self) -> (r: Result<(), MineError>)
        ensures
            r is Ok <==> !self.conflicting(),
            r matches Err(e) ==> e == Self::conflict_refusal(),
    {
        if self.nonblocking && (self.read_timeout.is_some() || self.write_timeout.is_some()) {
            return Err(refuse(RefusalKind::InvalidInput, MineCode::NonblockingWithTimeout));
        }
        Ok(())
    }
}

impl Default for Config {
    fn default() -> (c: Self)
        ensures
            c == Config::spec_default(),
    {
        Config { nonblocking: false, read_timeout: None, write_timeout: None, socket_mode: Some(OWNER_ONLY) }
    }
}

/// Builds a [`Config`].
#[derive(Clone, Debug)]
pub struct ConfigBuilder {
    cfg: Config,
}

impl ConfigBuilder {
    /// The config built so far.
    pub closed spec fn spec_config(&self) -> Config {
        self.cfg
    }

    /// Start from the defaults.
    pub fn new() -> (b: Self)
        ensures
            b.spec_config() == Config::spec_default(),
    {
        ConfigBuilder { cfg: Config::default() }
    }

    /// Non-blocking sockets.
    pub fn nonblocking(self, value: bool) -> (b: Self)
        ensures
            b.spec_config() == (Config { nonblocking: value, ..self.spec_config() }),
    {
        let mut b = self;
        b.cfg.nonblocking = value;
        b
    }

    /// A read timeout for streams.
    pub fn read_timeout(self, value: Duration) -> (b: Self)
        ensures
            b.spec_config() == (Config { read_timeout: Some(value), ..self.spec_config() }),
    {
        let mut b = self;
        b.cfg.read_timeout = Some(value);
        b
    }

    /// A write timeout for streams.
    pub fn write_timeout(self, value: Duration) -> (b: Self)
        ensures
            b.spec_config() == (Config { write_timeout: Some(value), ..self.spec_config() }),
    {
        let mut b = self;
        b.cfg.write_timeout = Some(value);
        b
    }

    /// Mode bits for the socket file, e.g. `0o660`.
    pub fn socket_mode(self, mode: u32) -> (b: Self)
        ensures
            b.spec_config() == (Config { socket_mode: Some(mode), ..self.spec_config() }),
    {
        let mut b = self;
        b.cfg.socket_mode = Some(mode);
        b
    }

    /// Leave the socket file's mode to the umask.
    pub fn umask_mode(self) -> (b: Self)
        ensures
            b.spec_config() == (Config { socket_mode: None, ..self.spec_config() }),
    {
        let mut b = self;
        b.cfg.socket_mode = None;
        b
    }

    /// The config as built; [`Config::validate`] checks it, and every bind
    /// and connect checks it again before touching anything.
    pub fn build(self) -> (c: Config)
        ensures
            c == self.spec_config(),
    {
        self.cfg
    }
}

impl Default for ConfigBuilder {
    fn default() -> (b: Self)
        ensures
            b.spec_config() == Config::spec_default(),
    {
        ConfigBuilder::new()
    }
}

} // verus!
