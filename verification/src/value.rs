//! Keyed containers: the key capability, the container surface derived from
//! it, and the closed value representation stored at every key.

use vstd::prelude::*;
pub use crate::scalar::{Scalar, ScalarValue};

verus! {

/// The entry where the key is live, nothing where it is not.
pub open spec fn present_if<V>(live: bool, entry: V) -> Option<V> {
    if live {
        Some(entry)
    } else {
        None
    }
}

/// The capability of a key type to address containers of type `T`.
///
/// The spec functions are the model every contract speaks of: which keys are
/// live in a container, what each live key holds, how many entries are live,
/// which key a mint hands out, and how a deletion re-keys what remains.
pub trait EdgeIndex<T>: Sized {
    type Vertex;

    /// Whether the key addresses a live entry of `c`.
    spec fn resolves(&self, c: &T) -> bool;

    /// The entry the key addresses; meaningful where the key resolves.
    spec fn entry(&self, c: &T) -> Self::Vertex;

    /// The number of live entries of `c`.
    spec fn population(c: &T) -> nat;

    /// The key that a mint on `c` hands out.
    spec fn fresh(c: &T) -> Self;

    /// The re-keying that a deletion causes: the key that addressed, before
    /// `deleted` was deleted, the entry that this key addresses afterwards.
    /// It is the key itself where deletion leaves the other keys alone; in an
    /// ordered sequence, which closes the gap, it is the next position for
    /// every key from `deleted` on.
    spec fn origin(&self, deleted: &Self) -> Self;

    /// A minted key never addresses a live entry.
    proof fn fresh_is_unused(c: &T)
        ensures
            !Self::fresh(c).resolves(c),
    ;

    /// Mints a key that is unused in `c` and fit for an immediate `store`.
    fn new(c: &T) -> (k: Self)
        ensures
            k == Self::fresh(c),
            !k.resolves(c),
    ;

    /// Removes the entry at the key, if it is live, and reports whether it was.
    /// Afterwards a key is live exactly where its origin was another live key,
    /// and it addresses what its origin addressed.
    fn delete(&self, c: &mut T) -> (removed: bool)
        ensures
            removed == self.resolves(old(c)),
            removed ==> Self::population(final(c)) + 1 == Self::population(old(c)),
            !removed ==> *final(c) == *old(c),
            removed ==> forall|p: Self|
                (#[trigger] p.resolves(final(c)) == (p.origin(self) != *self && p.origin(
                    self,
                ).resolves(old(c)))) && (p.resolves(final(c)) ==> p.entry(final(c)) == p.origin(
                    self,
                ).entry(old(c))),
    ;

    /// Removes the entry at the key, if it is live, and hands it out; the
    /// container changes as it does under `delete`.
    fn take(&self, c: &mut T) -> (removed: Option<Self::Vertex>)
        ensures
            removed == present_if(self.resolves(old(c)), self.entry(old(c))),
            removed.is_some() ==> Self::population(final(c)) + 1 == Self::population(old(c)),
            removed.is_none() ==> *final(c) == *old(c),
            removed.is_some() ==> forall|p: Self|
                (#[trigger] p.resolves(final(c)) == (p.origin(self) != *self && p.origin(
                    self,
                ).resolves(old(c)))) && (p.resolves(final(c)) ==> p.entry(final(c)) == p.origin(
                    self,
                ).entry(old(c))),
    ;

    /// Puts `v` at the key. A live key has its entry replaced and the former
    /// entry handed back; the freshly minted key gains a new entry; any other
    /// key leaves the container as it was. No other key is affected.
    fn store(&self, c: &mut T, v: Self::Vertex) -> (previous: Option<Self::Vertex>)
        ensures
            previous == present_if(self.resolves(old(c)), self.entry(old(c))),
            self.resolves(old(c)) || *self == Self::fresh(old(c)) ==> self.resolves(final(c))
                && self.entry(final(c)) == v,
            self.resolves(old(c)) ==> Self::population(final(c)) == Self::population(old(c)),
            !self.resolves(old(c)) && *self == Self::fresh(old(c)) ==> Self::population(final(c))
                == Self::population(old(c)) + 1,
            !self.resolves(old(c)) && *self != Self::fresh(old(c)) ==> *final(c) == *old(c),
            forall|j: Self|
                j != *self ==> (#[trigger] j.resolves(final(c)) == j.resolves(old(c))) && (
                j.resolves(old(c)) ==> j.entry(final(c)) == j.entry(old(c))),
    ;

    /// Resolves the key to a shared view of its entry, absent if it is not live.
    fn get_ref<'a>(&self, c: &'a T) -> (r: Option<&'a Self::Vertex>)
        ensures
            r.is_some() == self.resolves(c),
            r.is_some() ==> *r.unwrap() == self.entry(c),
    ;

    /// Resolves the key to an exclusive view of its entry, absent if it is not
    /// live. What is written through the view becomes the entry; nothing else
    /// changes.
    fn get_mut<'a>(&self, c: &'a mut T) -> (r: Option<&'a mut Self::Vertex>)
        ensures
            r.is_some() == self.resolves(old(c)),
            r.is_some() ==> *r.unwrap() == self.entry(old(c)),
            r.is_some() ==> self.resolves(final(c)) && self.entry(final(c)) == *final(r.unwrap()),
            r.is_none() ==> *final(c) == *old(c),
            Self::population(final(c)) == Self::population(old(c)),
            forall|j: Self|
                j != *self ==> (#[trigger] j.resolves(final(c)) == j.resolves(old(c))) && (
                j.resolves(old(c)) ==> j.entry(final(c)) == j.entry(old(c))),
    ;
}

/// An unsigned index addresses a growable sequence by position.
impl<T> EdgeIndex<Vec<T>> for usize {
    type Vertex = T;

    open spec fn resolves(&self, c: &Vec<T>) -> bool {
        *self < c@.len()
    }

    open spec fn entry(&self, c: &Vec<T>) -> T {
        c@[*self as int]
    }

    open spec fn population(c: &Vec<T>) -> nat {
        c@.len()
    }

    open spec fn fresh(c: &Vec<T>) -> usize {
        c.len()
    }

    /// Positions before the deleted one keep their entries; every later
    /// position takes over the entry of the position after it.
    open spec fn origin(&self, deleted: &usize) -> usize {
        if *self < *deleted || *self == usize::MAX {
            *self
        } else {
            (*self + 1) as usize
        }
    }

    proof fn fresh_is_unused(c: &Vec<T>) {
    }

    fn new(c: &Vec<T>) -> (k: usize)
        ensures
            k == c@.len(),
    {
        c.len()
    }

    /// Removal is positional and keeps the order: one entry leaves, those
    /// before it stay where they were, each one after it moves down by one.
    fn delete(&self, c: &mut Vec<T>) -> (removed: bool)
        ensures
            removed ==> final(c)@ == old(c)@.remove(*self as int),
            removed ==> final(c)@.len() + 1 == old(c)@.len(),
            removed ==> forall|j: int| 0 <= j < *self ==> final(c)@[j] == old(c)@[j],
            removed ==> forall|j: int| *self < j < old(c)@.len() ==> final(c)@[j - 1] == old(c)@[j],
    {
        if *self < c.len() {
            c.remove(*self);
            true
        } else {
            false
        }
    }

    fn take(&self, c: &mut Vec<T>) -> (removed: Option<T>)
        ensures
            removed.is_some() ==> final(c)@ == old(c)@.remove(*self as int),
            removed.is_some() ==> final(c)@.len() + 1 == old(c)@.len(),
            removed.is_some() ==> forall|j: int| 0 <= j < *self ==> final(c)@[j] == old(c)@[j],
            removed.is_some() ==> forall|j: int|
                *self < j < old(c)@.len() ==> final(c)@[j - 1] == old(c)@[j],
    {
        if *self < c.len() {
            Some(c.remove(*self))
        } else {
            None
        }
    }

    fn store(&self, c: &mut Vec<T>, v: T) -> (previous: Option<T>)
        ensures
            *self < old(c)@.len() ==> final(c)@ == old(c)@.update(*self as int, v),
            *self == old(c)@.len() ==> final(c)@ == old(c)@.push(v),
    {
        if *self < c.len() {
            let mut v = v;
            core::mem::swap(&mut c[*self], &mut v);
            Some(v)
        } else if *self == c.len() {
            c.push(v);
            None
        } else {
            None
        }
    }

    fn get_ref<'a>(&self, c: &'a Vec<T>) -> (r: Option<&'a T>) {
        if *self < c.len() {
            Some(&c[*self])
        } else {
            None
        }
    }

    fn get_mut<'a>(&self, c: &'a mut Vec<T>) -> (r: Option<&'a mut T>)
        ensures
            r.is_some() ==> final(c)@ == old(c)@.update(*self as int, *final(r.unwrap())),
    {
        if *self < c.len() {
            Some(&mut c[*self])
        } else {
            None
        }
    }
}

/// What resolving `k` against `c` yields: the entry, or nothing where the key
/// is not live.
pub open spec fn fetched<T, K: EdgeIndex<T>>(k: K, c: &T) -> Option<K::Vertex> {
    present_if(k.resolves(c), k.entry(c))
}

/// Every key other than `k` resolves in `after` exactly as it did in `before`.
pub open spec fn others_kept<T, K: EdgeIndex<T>>(k: K, before: &T, after: &T) -> bool {
    forall|j: K| j != k ==> #[trigger] fetched(j, after) == fetched(j, before)
}

/// `after` is `before` with `v` stored at `k`: where `k` is live or freshly
/// minted it now resolves to `v`, the container has grown by one exactly where
/// `k` was not live, and no other key is affected; on any other key nothing
/// has changed.
pub open spec fn stored<T, K: EdgeIndex<T>>(before: &T, k: K, v: K::Vertex, after: &T) -> bool {
    if k.resolves(before) || k == K::fresh(before) {
        &&& fetched(k, after) == Some(v)
        &&& K::population(after) == K::population(before) + if k.resolves(before) {
            0nat
        } else {
            1nat
        }
        &&& others_kept(k, before, after)
    } else {
        *after == *before
    }
}

/// `after` is `before` with the entry at `k` deleted: where `k` was live there
/// is one entry fewer, and every key resolves to what its origin resolved to,
/// or to nothing where its origin is `k` itself; where `k` was not live
/// nothing has changed.
pub open spec fn erased<T, K: EdgeIndex<T>>(before: &T, k: K, after: &T) -> bool {
    if k.resolves(before) {
        &&& K::population(after) + 1 == K::population(before)
        &&& forall|p: K| #[trigger]
            fetched(p, after) == if p.origin(&k) != k {
                fetched(p.origin(&k), before)
            } else {
                None
            }
    } else {
        *after == *before
    }
}

/// A fetch right after a store that took effect yields the stored value.
pub proof fn store_then_fetch<T, K: EdgeIndex<T>>(before: &T, k: K, v: K::Vertex, after: &T)
    requires
        stored(before, k, v, after),
        k.resolves(before) || k == K::fresh(before),
    ensures
        fetched(k, after) == Some(v),
{
}

/// The key that an insert returns was not live before it and resolves to the
/// inserted value after it.
pub proof fn insert_then_fetch<T, K: EdgeIndex<T>>(before: &T, v: K::Vertex, after: &T)
    requires
        stored(before, K::fresh(before), v, after),
    ensures
        fetched(K::fresh(before), before).is_none(),
        fetched(K::fresh(before), after) == Some(v),
        K::population(after) == K::population(before) + 1,
{
    K::fresh_is_unused(before);
}

/// After a live key is erased, a fetch of it yields nothing, unless the
/// deletion re-keyed another entry onto it: then it yields that entry.
/// Erasing a key that is not live leaves the container as it was.
pub proof fn erase_then_fetch<T, K: EdgeIndex<T>>(before: &T, k: K, after: &T)
    requires
        erased(before, k, after),
    ensures
        k.resolves(before) && k.origin(&k) == k ==> fetched(k, after).is_none(),
        k.resolves(before) && k.origin(&k) != k ==> fetched(k, after) == fetched(
            k.origin(&k),
            before,
        ),
        !k.resolves(before) ==> *after == *before && fetched(k, after).is_none(),
{
}

/// The uniform surface of a container `Self` addressed by keys of type `K`:
/// create, read, update and delete, each by the key capability alone.
pub trait Vector<K: EdgeIndex<Self, Vertex = V>, V>: Sized {
    /// Mints a key, stores `v` at it and returns the key. The key was not live
    /// before, holds `v` afterwards, and no other key is affected.
    fn insert(&mut self, v: V) -> (key: Option<K>)
        ensures
            key == Some(K::fresh(old(self))),
            fetched(K::fresh(old(self)), old(self)).is_none(),
            stored(old(self), K::fresh(old(self)), v, final(self)),
    ;

    /// Resolves `key` to a shared view of its entry.
    fn get(&self, key: &K) -> (r: Option<&V>)
        ensures
            r.is_some() == fetched(*key, self).is_some(),
            r.is_some() ==> Some(*r.unwrap()) == fetched(*key, self),
    ;

    /// Resolves `key` to an exclusive view of its entry. What is written
    /// through the view becomes the entry; nothing else changes.
    fn get_mut(&mut self, key: &K) -> (r: Option<&mut V>)
        ensures
            r.is_some() == key.resolves(old(self)),
            r.is_some() ==> *r.unwrap() == key.entry(old(self)),
            r.is_some() ==> fetched(*key, final(self)) == Some(*final(r.unwrap())),
            r.is_none() ==> *final(self) == *old(self),
            K::population(final(self)) == K::population(old(self)),
            others_kept(*key, old(self), final(self)),
    ;

    /// Stores `v` at `k` and returns the entry it replaced, if there was one.
    /// The store takes effect where `k` is live or freshly minted, and then a
    /// fetch of `k` yields `v`; on any other key the container is unchanged.
    fn put(&mut self, k: &K, v: V) -> (previous: Option<V>)
        ensures
            previous == fetched(*k, old(self)),
            stored(old(self), *k, v, final(self)),
    ;

    /// Deletes the entry at `k` and returns it; on a key that is not live it
    /// returns nothing and leaves the container unchanged.
    fn remove(&mut self, k: &K) -> (removed: Option<V>)
        ensures
            removed == fetched(*k, old(self)),
            erased(old(self), *k, final(self)),
    ;
}

impl<T, K, V> Vector<K, V> for T where K: EdgeIndex<T, Vertex = V> {
    fn insert(&mut self, v: V) -> (key: Option<K>) {
        let k = K::new(self);
        k.store(self, v);
        Some(k)
    }

    fn get(&self, key: &K) -> (r: Option<&V>) {
        key.get_ref(self)
    }

    fn get_mut(&mut self, key: &K) -> (r: Option<&mut V>) {
        key.get_mut(self)
    }

    fn put(&mut self, k: &K, v: V) -> (previous: Option<V>) {
        k.store(self, v)
    }

    fn remove(&mut self, k: &K) -> (removed: Option<V>) {
        k.take(self)
    }
}

/// What a store means for a sequence: a live position is overwritten, the
/// position one past the end is appended, any other leaves the sequence alone.
pub proof fn stored_in_sequence<T>(before: &Vec<T>, i: usize, v: T, after: &Vec<T>)
    requires
        stored(before, i, v, after),
    ensures
        i < before@.len() ==> after@ == before@.update(i as int, v),
        i == before@.len() ==> after@ == before@.push(v),
        i > before@.len() ==> after@ == before@,
{
    if i <= before@.len() {
        let expected = if i < before@.len() {
            before@.update(i as int, v)
        } else {
            before@.push(v)
        };
        assert(fetched(i, after) == Some(v));
        assert(after@.len() == after.len() == expected.len());
        assert forall|j: int| 0 <= j < expected.len() implies after@[j] == expected[j] by {
            let p = j as usize;
            if p != i {
                assert(fetched(p, after) == fetched(p, before));
            }
        }
        assert(after@ =~= expected);
    }
}

/// What an erasure means for a sequence: the entry at a live position leaves
/// and every later entry moves down by one, so that position is vacant
/// afterwards exactly where it was the last one.
pub proof fn erased_from_sequence<T>(before: &Vec<T>, i: usize, after: &Vec<T>)
    requires
        erased(before, i, after),
    ensures
        i < before@.len() ==> after@ == before@.remove(i as int),
        i >= before@.len() ==> after@ == before@,
        i + 1 == before@.len() ==> fetched(i, after).is_none(),
        i + 1 < before@.len() ==> fetched(i, after) == Some(before@[i + 1]),
{
    if i < before@.len() {
        let expected = before@.remove(i as int);
        assert(before@.len() == before.len());
        assert(after@.len() == expected.len());
        assert forall|j: int| 0 <= j < expected.len() implies after@[j] == expected[j] by {
            let p = j as usize;
            assert(fetched(p, after) == fetched(EdgeIndex::<Vec<T>>::origin(&p, &i), before));
        }
        assert(after@ =~= expected);
    }
}

/// What is stored at a key: nothing, an atomic leaf, a nested container of
/// further values, or a handle that designates a value held elsewhere.
///
/// A `Refer` never owns what it designates.
#[derive(Debug, PartialEq, Eq)]
pub enum Value<'a, S, V> {
    Null,
    Scalar(S),
    Vector(V),
    Refer(&'a Self),
}

/// A value whose references, if any, live as long as the program.
pub type SolidValue<T, V> = Value<'static, T, V>;

} // verus!
