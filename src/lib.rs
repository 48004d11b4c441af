//! A synchronous, type-routed publish/subscribe dispatcher.
//!
//! Handlers are registered against the exact type of the values they observe
//! and are called when a value of that type is posted. A value that no handler
//! claims is wrapped in a [`DeadEvent`] and offered once to the handlers of
//! that type.
pub mod bus;
pub mod dead_event;
pub mod delivery;
pub mod handler_set;
pub mod identity;

pub use bus::EventBus;
pub use dead_event::DeadEvent;
pub use delivery::{deliver, Delivery};
pub use handler_set::HandlerSet;
pub use identity::HandlerKey;
