//! Live collaboration engine for a shared plaintext editor.
//!
//! The engine owns the shared state of a collaborative editing session: the
//! documents themselves, the registry of live connections, and the last known
//! cursor position of each participant.  Inbound messages (join, leave, text
//! change, cursor move, disconnect) are routed through [`types::AppState`],
//! which mutates that state and says which connections must be notified.
//! Actual transport - decoding frames off the wire and pushing the computed
//! notifications back out - is left to the surrounding host program.

pub mod edit;
pub mod types;
pub mod platform;
pub mod registry;
pub mod cursors;
pub mod store;
pub mod invites;
pub mod router;

pub use types::{AppState, Document, CursorPosition, ConnectionInfo, Connection, CursorEntry, InviteEntry, WSMessage, DocError, InviteError, InvitePayload};
pub use router::{WsEffects, Fanout};
