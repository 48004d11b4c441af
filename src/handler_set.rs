use std::any::TypeId;
use vstd::prelude::*;

use crate::identity::{same_key, type_key, HandlerKey};

verus! {

/// A handler for values of type `T`, boxed so that handlers of different
/// types can share one list. Verus has no trait objects, so the box is kept
/// out of its sight.
#[verifier::external_body]
#[verifier::reject_recursive_types(T)]
pub struct Callback<T: 'static> {
    f: Box<dyn Fn(&T)>,
}

/// Relies on `Box::new` and the unsizing coercion to `Box<dyn Fn(&T)>`,
/// which Verus does not model; the handler is not called.
#[verifier::external_body]
fn callback_of<T: 'static, H: Fn(&T) + 'static>(handler: H) -> Callback<T> {
    Callback { f: Box::new(handler) }
}

/// Calls the boxed handler once on `arg`. What the handler does is its own
/// affair, so nothing is promised of it.
#[verifier::external_body]
fn invoke<T: 'static>(callback: &Callback<T>, arg: &T) {
    (callback.f)(arg)
}

/// One registered handler with the key it is known by.
#[verifier::reject_recursive_types(T)]
struct HandlerEntry<T: 'static> {
    key: HandlerKey,
    callback: Callback<T>,
}

/// The key sequence `s` after registering the handler keyed `k`: unchanged
/// when `k` is already there, else `k` comes last.
pub open spec fn with_key(s: Seq<HandlerKey>, k: HandlerKey) -> Seq<HandlerKey> {
    if s.contains(k) {
        s
    } else {
        s.push(k)
    }
}

/// Where `k` first occurs in `s`.
pub open spec fn first_index(s: Seq<HandlerKey>, k: HandlerKey) -> int {
    choose|i: int| 0 <= i < s.len() && s[i] == k && forall|j: int| 0 <= j < i ==> s[j] != k
}

/// The key sequence `s` after unregistering the handler keyed `k`: its entry
/// is taken out and the others keep their order.
pub open spec fn without_key(s: Seq<HandlerKey>, k: HandlerKey) -> Seq<HandlerKey> {
    if s.contains(k) {
        s.remove(first_index(s, k))
    } else {
        s
    }
}

/// The handlers registered for one event type, at most one per handler key.
///
/// Its view is the sequence of keys in the order the handlers were added;
/// dispatch calls the handlers in that order.
#[verifier::reject_recursive_types(T)]
pub struct HandlerSet<T: 'static> {
    entries: Vec<HandlerEntry<T>>,
}

impl<T: 'static> View for HandlerSet<T> {
    type V = Seq<HandlerKey>;

    closed spec fn view(&self) -> Seq<HandlerKey> {
        self.entries@.map_values(|e: HandlerEntry<T>| e.key)
    }
}

impl<T: 'static> HandlerSet<T> {
    /// An empty set.
    pub fn new() -> (r: Self)
        ensures
            r@ == Seq::<HandlerKey>::empty(),
            r@.no_duplicates(),
    {
        let r = HandlerSet { entries: Vec::new() };
        assert(r@ =~= Seq::<HandlerKey>::empty());
        r
    }

    /// The set held in `set`, or an empty one when there is none.
    pub fn or_new(set: Option<Self>) -> (r: Self)
        ensures
            r@ == match set {
                Some(s) => s@,
                None => Seq::<HandlerKey>::empty(),
            },
    {
        match set {
            Some(s) => s,
            None => HandlerSet::new(),
        }
    }

    /// The number of handlers.
    pub fn len(&self) -> (r: usize)
        ensures
            r == self@.len(),
    {
        self.entries.len()
    }

    /// Where the handler keyed `key` stands, if it is registered.
    pub fn position(&self, key: &HandlerKey) -> (r: Option<usize>)
        ensures
            match r {
                Some(i) => i < self@.len() && self@[i as int] == *key && forall|j: int|
                0 <= j < i ==> self@[j] != *key,
                None => !self@.contains(*key),
            },
    {
        let mut i: usize = 0;
        while i < self.entries.len()
            invariant
                i <= self@.len(),
                self@.len() == self.entries@.len(),
                forall|j: int| 0 <= j < i ==> self@[j] != *key,
            decreases self.entries.len() - i,
        {
            if same_key(&self.entries[i].key, key) {
                return Some(i);
            }
            i = i + 1;
        }
        None
    }

    /// Adds `callback` under `key`, unless a handler with that key is
    /// already registered, in which case nothing changes.
    fn insert_entry(&mut self, key: HandlerKey, callback: Callback<T>)
        ensures
            final(self)@ == with_key(old(self)@, key),
    {
        match self.position(&key) {
            Some(_) => {
                assert(self@.contains(key));
            },
            None => {
                let ghost before = self.entries@;
                self.entries.push(HandlerEntry { key, callback });
                assert(self@ =~= with_key(before.map_values(|e: HandlerEntry<T>| e.key), key));
            },
        }
    }

    /// Registers `handler` and returns the key it is known by. Registering a
    /// handler whose key is already present changes nothing.
    pub fn insert<H: Fn(&T) + 'static>(&mut self, handler: H) -> (k: HandlerKey)
        ensures
            final(self)@ == with_key(old(self)@, k),
            old(self)@.no_duplicates() ==> final(self)@.no_duplicates(),
    {
        let key = type_key::<H>();
        self.insert_entry(key, callback_of(handler));
        key
    }

    /// Unregisters the handler keyed `key`, if there is one; the others keep
    /// their order.
    pub fn remove(&mut self, key: &HandlerKey)
        ensures
            final(self)@ == without_key(old(self)@, *key),
            old(self)@.no_duplicates() ==> final(self)@.no_duplicates(),
    {
        match self.position(key) {
            Some(i) => {
                let ghost s = self@;
                assert(s.contains(*key));
                let ghost j = first_index(s, *key);
                assert(0 <= j < s.len() && s[j] == *key && forall|m: int| 0 <= m < j ==> s[m] != *key);
                assert(j == i as int);
                let _ = self.entries.remove(i);
                assert(self@ =~= s.remove(i as int));
            },
            None => {},
        }
    }

    /// Calls every handler once on `arg`, in order, and returns how many
    /// were called.
    pub fn dispatch(&self, arg: &T) -> (n: usize)
        ensures
            n == self@.len(),
    {
        let mut i: usize = 0;
        while i < self.entries.len()
            invariant
                i <= self.entries@.len(),
            decreases self.entries.len() - i,
        {
            invoke(&self.entries[i].callback, arg);
            i = i + 1;
        }
        i
    }
}

/// Registering a handler twice leaves it registered once: the second
/// registration changes nothing, and the handler's key then stands exactly
/// once among the keys of the type.
pub proof fn lemma_register_twice(s: Seq<HandlerKey>, h: HandlerKey)
    requires
        s.no_duplicates(),
    ensures
        with_key(with_key(s, h), h) == with_key(s, h),
        with_key(with_key(s, h), h).contains(h),
        with_key(with_key(s, h), h).no_duplicates(),
{
    if !s.contains(h) {
        assert(s.push(h)[s.len() as int] == h);
    }
}

/// Registering a handler and then unregistering it leaves no entry with its
/// key, whatever was registered before.
pub proof fn lemma_register_then_unregister(s: Seq<HandlerKey>, h: HandlerKey)
    requires
        s.no_duplicates(),
    ensures
        !without_key(with_key(s, h), h).contains(h),
{
    let t = with_key(s, h);
    if !s.contains(h) {
        assert(t[s.len() as int] == h);
    }
    assert(t.contains(h));
    assert(t.no_duplicates());
    let i = first_index(t, h);
    assert(0 <= i < t.len() && t[i] == h);
    let r = t.remove(i);
    if r.contains(h) {
        let j = choose|j: int| 0 <= j < r.len() && r[j] == h;
        if j < i {
            assert(t[j] == h);
        } else {
            assert(t[j + 1] == h);
        }
    }
}

} // verus!
