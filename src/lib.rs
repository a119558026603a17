//! Routing of inbound chat messages: article links are forwarded as
//! events to a publish/subscribe topic and acknowledged in chat, the
//! `!ping` command is answered, everything else is ignored.
//!
//! The library decides; the caller performs the outside work (connecting,
//! topic checks, publishing, replying) that each decision asks for and
//! reports back what came of it.

pub mod classify;
pub mod event;
pub mod json;
pub mod router;

pub use classify::{classify_message, is_ping_command, is_url_candidate, MessageKind};
pub use event::{build_payload, ordering_key};
pub use router::{transition, Action, Event, Failure, Outcome, Phase, Relay, Reply};
