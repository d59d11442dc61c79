//! A Unix domain socket that is yours alone: the decisions behind binding,
//! path care, peer admission and refusal codes, each with a contract.
//!
//! The library decides; the caller performs. A bind or a connect is a plan
//! of socket steps that [`StreamBuilder`] or [`DatagramBuilder`] hands out
//! after checking the [`Config`]; what may be removed at a socket path is
//! decided by [`unlink_if_socket`] from what was found there; whether a peer
//! is let in is decided by [`Admit`]. Every refusal carries a stable
//! [`MineCode`] whose rendering is `[MINE0004] Refused connection ...`.

pub mod classified_frames;
pub mod config;
pub mod datagram;
pub mod error;
pub mod laws;
pub mod path;
pub mod peer;
pub mod plan;
pub mod stream;

pub use config::{Config, ConfigBuilder, OWNER_ONLY};
pub use datagram::{check_datagram_sent, DatagramBuilder};
pub use error::{code_of, push_decimal, render_coded, MineCode, MineError, RefusalKind};
pub use path::{default_socket_path, join_path, runtime_dir_from, unlink_if_socket, FileKind, SocketPathGuard, UnlinkStep};
pub use peer::{Admit, Peer};
pub use plan::{socket_options, SocketStep};
pub use stream::StreamBuilder;
