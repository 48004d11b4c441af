use std::any::Any;
use vstd::prelude::*;

verus! {

/// A posted value that no handler of its own type received, offered to the
/// handlers registered for `DeadEvent`.
///
/// The value is held as a trait object, which Verus cannot see into; it is
/// read back with [`DeadEvent::downcast_ref`].
#[verifier::external_body]
pub struct DeadEvent {
    event: Box<dyn Any>,
}

impl DeadEvent {
    /// Relies on `Box::new` and the unsizing coercion to `Box<dyn Any>`, which
    /// Verus does not model: wraps `value`, remembering its type.
    #[verifier::external_body]
    pub fn new<T: 'static>(value: T) -> DeadEvent {
        DeadEvent { event: Box::new(value) }
    }

    /// Relies on `<dyn Any>::downcast_ref`: the wrapped value when its type is
    /// `U`, and `None` for any other `U`, never a panic.
    #[verifier::external_body]
    pub fn downcast_ref<U: 'static>(&self) -> Option<&U> {
        self.event.downcast_ref::<U>()
    }
}

} // verus!
