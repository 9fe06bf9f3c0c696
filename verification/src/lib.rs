//! A registry of tour listings and the fixed preamble of the assistant's conversations.

pub mod conversation;
pub mod history;
pub mod principal;
pub mod registry;
pub mod tour;

pub use conversation::{build_conversation, ChatMessage, Role};
pub use registry::Registry;
pub use tour::{Tour, TourView};
