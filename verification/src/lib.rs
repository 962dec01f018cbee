//! Rich presence reporting: the event model, the validated presence state
//! and the session logic that sits between an application and the native
//! presence library.

pub mod events;
pub mod presence;
pub mod registry;
pub mod rpc;
pub mod text;
pub mod trampoline;

pub use events::{Event, JoinRequest, Reply};
pub use rpc::{Phase, Polled, RichPresence, WireInit, WireReply};
