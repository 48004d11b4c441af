use vstd::prelude::*;

use crate::dead_event::DeadEvent;
use crate::handler_set::{lemma_register_then_unregister, lemma_register_twice, with_key, without_key, HandlerSet};
use crate::identity::HandlerKey;

verus! {

/// How one posted value was delivered.
#[derive(Debug, PartialEq, Eq, Structural)]
pub enum Delivery {
    /// The handlers of the value's own type were called; this many of them.
    Routed(usize),
    /// The value's own type had no handler, so it went out as a
    /// [`DeadEvent`] to this many handlers (possibly none).
    Unrouted(usize),
}

/// The keys of a handler set that may be absent; absence counts as empty.
pub open spec fn keys_or_empty<T>(set: Option<&HandlerSet<T>>) -> Seq<HandlerKey> {
    match set {
        Some(s) => s@,
        None => Seq::empty(),
    }
}

/// How a value is delivered when its own type has the handlers `primary`
/// and `DeadEvent` has the handlers `fallback`.
pub open spec fn delivery_of(primary: Seq<HandlerKey>, fallback: Seq<HandlerKey>) -> Delivery {
    if primary.len() > 0 {
        Delivery::Routed(called(primary, fallback).len() as usize)
    } else {
        Delivery::Unrouted(called(primary, fallback).len() as usize)
    }
}

/// The handlers called for one post, in the order they are called: those of
/// the value's own type, or, when there are none, those of `DeadEvent`.
pub open spec fn called(primary: Seq<HandlerKey>, fallback: Seq<HandlerKey>) -> Seq<HandlerKey> {
    if primary.len() > 0 {
        primary
    } else {
        fallback
    }
}

/// Calls the handlers of `arg`'s own type; only when there are none, wraps
/// `arg` in a [`DeadEvent`] and calls the `DeadEvent` handlers instead. The
/// wrapped value is not wrapped again.
pub fn deliver<T: 'static>(
    primary: Option<&HandlerSet<T>>,
    fallback: Option<&HandlerSet<DeadEvent>>,
    arg: T,
) -> (r: Delivery)
    ensures
        r == delivery_of(keys_or_empty(primary), keys_or_empty(fallback)),
{
    let n = match primary {
        Some(set) => set.dispatch(&arg),
        None => 0,
    };
    if n > 0 {
        Delivery::Routed(n)
    } else {
        let dead = DeadEvent::new(arg);
        let m = match fallback {
            Some(set) => set.dispatch(&dead),
            None => 0,
        };
        Delivery::Unrouted(m)
    }
}

/// Registering a handler twice for a type and then posting a value of that
/// type calls the handler exactly once: it stands once among the handlers
/// called, which are those of the type, since the type has at least one.
pub proof fn lemma_registered_twice_called_once(
    s: Seq<HandlerKey>,
    h: HandlerKey,
    fallback: Seq<HandlerKey>,
)
    requires
        s.no_duplicates(),
    ensures
        called(with_key(with_key(s, h), h), fallback) == with_key(s, h),
        called(with_key(with_key(s, h), h), fallback).contains(h),
        called(with_key(with_key(s, h), h), fallback).no_duplicates(),
{
    lemma_register_twice(s, h);
}

/// After a handler is registered for a type and then unregistered, a post to
/// that type no longer reaches it through that type: it is called only if it
/// is also among the `DeadEvent` handlers.
pub proof fn lemma_unregistered_not_called(
    s: Seq<HandlerKey>,
    h: HandlerKey,
    fallback: Seq<HandlerKey>,
)
    requires
        s.no_duplicates(),
    ensures
        called(without_key(with_key(s, h), h), fallback).contains(h) ==> fallback.contains(h),
{
    lemma_register_then_unregister(s, h);
}

/// With no handler for the posted type and one `DeadEvent` handler `d`, the
/// post goes out unrouted and calls `d` exactly once.
pub proof fn lemma_unrouted_single(d: HandlerKey)
    ensures
        delivery_of(Seq::empty(), seq![d]) == Delivery::Unrouted(1),
        called(Seq::empty(), seq![d]) == seq![d],
{
}

/// With no handler for the posted type and none for `DeadEvent`, a post
/// calls nothing.
pub proof fn lemma_nothing_called()
    ensures
        delivery_of(Seq::empty(), Seq::empty()) == Delivery::Unrouted(0),
        called(Seq::empty(), Seq::empty()).len() == 0,
{
}

/// A post calls the handlers of its own type whenever there is at least one,
/// and the `DeadEvent` handlers exactly when there is none.
pub proof fn lemma_fallback_iff_unclaimed(primary: Seq<HandlerKey>, fallback: Seq<HandlerKey>)
    ensures
        delivery_of(primary, fallback) is Unrouted <==> primary.len() == 0,
        primary.len() > 0 ==> called(primary, fallback) == primary,
        primary.len() == 0 ==> called(primary, fallback) == fallback,
{
}

} // verus!
