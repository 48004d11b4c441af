use anymap::AnyMap;
use std::any::TypeId;
use vstd::prelude::*;

use crate::dead_event::DeadEvent;
use crate::delivery::deliver;
use crate::handler_set::{with_key, without_key, HandlerSet};
use crate::identity::{type_key, HandlerKey};

verus! {

/// The handler sets of all event types, at most one per type, kept in an
/// `anymap::AnyMap` under the type of the set. The map's values are trait
/// objects, which Verus cannot name, so the map is held out of its sight.
#[verifier::external_body]
pub struct HandlerTable {
    sets: AnyMap,
}

/// For each event type with a handler set, the keys of its handlers.
pub type Registry = Map<TypeId, Seq<HandlerKey>>;

/// What the table holds: for the type key of each set stored, the handler
/// keys of that set.
pub uninterp spec fn table_view(t: HandlerTable) -> Registry;

/// The handler keys stored under `k`; none when `k` has no entry.
pub open spec fn keys_at(m: Registry, k: TypeId) -> Seq<HandlerKey> {
    if m.contains_key(k) {
        m[k]
    } else {
        Seq::empty()
    }
}

impl HandlerTable {
    /// Relies on `anymap::Map::new`: a map with no entry.
    #[verifier::external_body]
    fn new() -> (r: HandlerTable)
        ensures
            table_view(r) == Registry::empty(),
    {
        HandlerTable { sets: AnyMap::new() }
    }

    /// Relies on `anymap::Map::get`: the set stored for `T`, if any.
    #[verifier::external_body]
    fn get<T: 'static>(&self) -> (r: Option<&HandlerSet<T>>)
        ensures
            r matches Some(s) ==> exists|k: TypeId|
                #[trigger] keys_at(table_view(*self), k) == s@ && table_view(*self).contains_key(k),
    {
        self.sets.get::<HandlerSet<T>>()
    }

    /// Relies on `anymap::Map::entry` and `Entry::or_insert_with`: the set
    /// stored for `T`, stored first as an empty one when there is none; the
    /// entries of every other type stay as they are.
    #[verifier::external_body]
    fn slot<T: 'static>(&mut self) -> (r: &mut HandlerSet<T>)
        ensures
            exists|k: TypeId|
                #[trigger] keys_at(table_view(*old(self)), k) == (*r)@ && table_view(*final(self))
                    == table_view(*old(self)).insert(k, (*final(r))@),
    {
        self.sets.entry::<HandlerSet<T>>().or_insert_with(HandlerSet::new)
    }

    /// Relies on `anymap::Map::get_mut`: the set stored for `T`, if any; the
    /// entries of every other type stay as they are.
    #[verifier::external_body]
    fn get_mut<T: 'static>(&mut self) -> (r: Option<&mut HandlerSet<T>>)
        ensures
            exists|k: TypeId|
                match r {
                    Some(s) => #[trigger] table_view(*old(self)).contains_key(k) && keys_at(
                        table_view(*old(self)),
                        k,
                    ) == (*s)@ && table_view(*final(self)) == table_view(*old(self)).insert(
                        k,
                        (*final(s))@,
                    ),
                    None => !table_view(*old(self)).contains_key(k) && table_view(*final(self))
                        == table_view(*old(self)),
                },
    {
        self.sets.get_mut::<HandlerSet<T>>()
    }

    /// Relies on `anymap::Map::remove`: takes out the set stored for `T`, if
    /// any; the entries of every other type stay as they are.
    #[verifier::external_body]
    fn take<T: 'static>(&mut self) -> (r: Option<HandlerSet<T>>)
        ensures
            exists|k: TypeId|
                table_view(*final(self)) == #[trigger] table_view(*old(self)).remove(k) && match r {
                    Some(s) => table_view(*old(self)).contains_key(k) && table_view(*old(self))[k]
                        == s@,
                    None => !table_view(*old(self)).contains_key(k),
                },
    {
        self.sets.remove::<HandlerSet<T>>()
    }
}

/// A dispatcher that routes each posted value to the handlers registered for
/// its exact type.
///
/// Its view maps the key of each event type that has a handler set to the
/// keys of the handlers in it.
pub struct EventBus {
    handlers: HandlerTable,
}

impl View for EventBus {
    type V = Registry;

    closed spec fn view(&self) -> Registry {
        table_view(self.handlers)
    }
}

impl EventBus {
    /// A bus with no handler.
    pub fn new() -> (r: EventBus)
        ensures
            r@ == Registry::empty(),
    {
        EventBus { handlers: HandlerTable::new() }
    }

    /// Registers `handler` for values of type `T`. A handler already
    /// registered for `T` under the same key (the same function or closure
    /// expression) is not added a second time. Only the entry of one type,
    /// `T`'s, changes.
    pub fn register<T: 'static, H: Fn(&T) + 'static>(&mut self, handler: H)
        ensures
            exists|k: TypeId, h: HandlerKey|
                final(self)@ == old(self)@.insert(k, #[trigger] with_key(keys_at(old(self)@, k), h)),
    {
        let set = self.handlers.slot::<T>();
        let h = set.insert(handler);
        proof {
            let k = choose|k: TypeId|
                table_view(self.handlers) == table_view(old(self).handlers).insert(
                    k,
                    with_key(#[trigger] keys_at(table_view(old(self).handlers), k), h),
                );
            assert(self@ == old(self)@.insert(k, with_key(keys_at(old(self)@, k), h)));
        }
    }

    /// Unregisters, for type `T`, the handler with the same key as `handler`,
    /// if there is one. Only the entry of one type, `T`'s, can change.
    pub fn unregister<T: 'static, H: Fn(&T) + 'static>(&mut self, handler: H)
        ensures
            exists|k: TypeId, h: HandlerKey|
                final(self)@ == if old(self)@.contains_key(k) {
                    old(self)@.insert(k, #[trigger] without_key(keys_at(old(self)@, k), h))
                } else {
                    old(self)@
                },
    {
        let h = type_key::<H>();
        let found = self.handlers.get_mut::<T>();
        let ghost at = found;
        match found {
            Some(set) => set.remove(&h),
            None => {},
        }
        proof {
            let k = choose|k: TypeId|
                match at {
                    Some(s) => #[trigger] table_view(old(self).handlers).contains_key(k) && keys_at(
                        table_view(old(self).handlers),
                        k,
                    ) == (*s)@ && table_view(self.handlers) == table_view(
                        old(self).handlers,
                    ).insert(k, (*final(s))@),
                    None => !table_view(old(self).handlers).contains_key(k) && table_view(
                        self.handlers,
                    ) == table_view(old(self).handlers),
                };
            let rest = without_key(keys_at(old(self)@, k), h);
            assert(old(self)@.contains_key(k) ==> self@ == old(self)@.insert(k, rest));
        }
    }

    /// Unregisters every handler of type `T`: the entry of one type, `T`'s,
    /// is removed and every other type keeps its handlers.
    pub fn unregister_all<T: 'static>(&mut self)
        ensures
            exists|k: TypeId| final(self)@ == #[trigger] old(self)@.remove(k),
    {
        let taken = self.handlers.take::<T>();
        proof {
            let k = choose|k: TypeId|
                table_view(self.handlers) == #[trigger] table_view(old(self).handlers).remove(k)
                    && match taken {
                    Some(s) => table_view(old(self).handlers).contains_key(k) && table_view(
                        old(self).handlers,
                    )[k] == s@,
                    None => !table_view(old(self).handlers).contains_key(k),
                };
            assert(self@ == old(self)@.remove(k));
        }
    }

    /// Calls every handler registered for `T` once on `arg`. When `T` has
    /// none, `arg` is wrapped in a [`DeadEvent`] and the handlers registered
    /// for `DeadEvent` are called instead; when there are none of those
    /// either, `arg` is dropped.
    pub fn post<T: 'static>(&self, arg: T) {
        let _ = deliver(self.handlers.get::<T>(), self.handlers.get::<DeadEvent>(), arg);
    }
}

/// Unregistering every handler of one type leaves that type with no handler
/// and every other type with exactly the handlers it had.
pub proof fn lemma_unregister_all_keeps_others(m: Registry, k: TypeId, other: TypeId)
    requires
        other != k,
    ensures
        keys_at(m.remove(k), k).len() == 0,
        keys_at(m.remove(k), other) == keys_at(m, other),
{
}

} // verus!
