//! Out-of-band ("link") authentication for a database wire-protocol proxy.
//!
//! A connecting client is handed a one-time session id inside a URL, and the
//! connection waits until a separate web flow reports, under that id, whether
//! the user was let in.  The crate holds the three pieces of that handshake:
//! the session ids, the registry of waiting connections, and the
//! per-connection state machine that drives one handshake.

pub mod session_id;
pub mod error;
pub mod registry;
pub mod greeting;
pub mod handshake;
pub mod lifecycle;

pub use error::{AuthError, CompletionError};
pub use greeting::hello_message;
pub use handshake::{Action, Event, Handshake, Message, NodeInfo, ScramKeys};
pub use registry::{Registry, Wait, WaiterHandle};
pub use session_id::{new_psql_session_id, session_id_from_bytes};
