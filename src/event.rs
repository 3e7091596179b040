use vstd::prelude::*;

use crate::cache::Key;

verus! {

/// One observed change to a cache holding values of type `V`.
#[derive(Clone, Debug, PartialEq)]
pub enum Event<V> {
    /// A key was stored or replaced; the payload carries the new value.
    Insert(EventData<V>),
    /// A key was removed or evicted; the payload carries the value it held.
    Remove(EventData<V>),
    /// The whole cache was emptied at once.
    Clear,
}

/// The key that changed and the value involved in the change.
#[derive(Clone, Debug, PartialEq)]
pub struct EventData<V> {
    pub key: Key,
    pub value: V,
}

impl<V> Event<V> {
    /// The key/value pair an insertion or a removal carries; none for a clear.
    pub open spec fn payload(self) -> Option<(Key, V)> {
        match self {
            Event::Insert(d) => Some((d.key, d.value)),
            Event::Remove(d) => Some((d.key, d.value)),
            Event::Clear => None,
        }
    }

    /// The event for `value` having been stored under `key`.
    pub fn insert(key: Key, value: V) -> (r: Self)
        ensures
            r == Event::Insert(EventData { key, value }),
            r.payload() == Some((key, value)),
    {
        Self::Insert(EventData { key, value })
    }

    /// The event for `key` having been removed while it held `value`.
    pub fn remove(key: Key, value: V) -> (r: Self)
        ensures
            r == Event::Remove(EventData { key, value }),
            r.payload() == Some((key, value)),
    {
        Self::Remove(EventData { key, value })
    }

    /// The event for the whole cache having been emptied.
    pub fn clear() -> (r: Self)
        ensures
            r == Event::<V>::Clear,
            r.payload() is None,
    {
        Self::Clear
    }
}

/// Events compare by variant and payload: two insertions (or two removals) are
/// equal exactly when their keys and values are, an insertion never equals a
/// removal, neither equals a clear, and every clear equals every other.
pub proof fn lemma_event_equality<V>(k1: Key, v1: V, k2: Key, v2: V)
    ensures
        (Event::Insert(EventData { key: k1, value: v1 }) == Event::Insert(
            EventData { key: k2, value: v2 },
        )) <==> (k1 == k2 && v1 == v2),
        (Event::Remove(EventData { key: k1, value: v1 }) == Event::Remove(
            EventData { key: k2, value: v2 },
        )) <==> (k1 == k2 && v1 == v2),
        Event::Insert(EventData { key: k1, value: v1 }) != Event::Remove(
            EventData { key: k2, value: v2 },
        ),
        Event::Insert(EventData { key: k1, value: v1 }) != Event::<V>::Clear,
        Event::Remove(EventData { key: k1, value: v1 }) != Event::<V>::Clear,
        Event::<V>::Clear == Event::<V>::Clear,
{
}

/// Every event is exactly one of an insertion, a removal and a clear, and it
/// carries a payload exactly when it is not a clear.
pub proof fn lemma_event_variants<V>(e: Event<V>)
    ensures
        e is Insert || e is Remove || e is Clear,
        !(e is Insert && e is Remove),
        !(e is Insert && e is Clear),
        !(e is Remove && e is Clear),
        e.payload() is None <==> e is Clear,
{
}

} // verus!
