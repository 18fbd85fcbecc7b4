//! The interfaces a vertex offers to the layers above it: tightly coupled
//! graph operations, loosely coupled message passing, a single-state machine,
//! and keyed access by value or by reference.
//!
//! Nothing here is implemented by this crate: a vertex type supplies each
//! operation it is asked for.

use vstd::prelude::*;

verus! {

/// Graph operations over a caller-supplied predicate type.
pub trait Graph<P> {
    type Result;

    /// Reads from the graph. The receiver is shared, yet the result may
    /// reflect state that the vertex mutates internally.
    fn query(&self, predicate: P) -> Self::Result;

    /// Changes the graph, with exclusive access to the vertex.
    fn mutate(&mut self, predicate: P) -> Self::Result;

    /// Registers interest in events that the graph pushes outwards.
    fn subscribe(&mut self, predicate: P) -> Self::Result;
}

/// A single entry point that takes a message and answers it, for interaction
/// across processes or tasks.
pub trait Actor<M> {
    type Response;

    fn invoke(&self, message: M) -> Self::Response;
}

/// A machine of one state: `entry` consumes the state with an input and
/// produces the output, `exit` tears the state down.
pub trait State {
    type Input;

    type Output;

    fn entry(self, arg: Self::Input) -> Self::Output;

    fn exit(&mut self) {
    }
}

/// Keyed access to the values of a vertex, by value and by reference.
///
/// `lent` is the model of the by-reference half: the value that the vertex
/// lends in place at a key, or nothing where it lends none there.
pub trait Access<K>: Sized {
    type Value;

    /// The value lent in place at `key`, absent where the key addresses
    /// nothing that can be borrowed.
    spec fn lent(&self, key: K) -> Option<Self::Value>;

    /// Fetches the value at `key`.
    fn get(&self, key: K) -> Self::Value;

    /// Replaces the value at `key` and returns the one it replaced.
    fn put(&mut self, key: K, value: Self::Value) -> Self::Value;

    /// Deletes the value at `key` and returns it.
    fn remove(&mut self, key: K) -> Self::Value;

    /// Borrows the value at `key`. What is handed out is the value lent at
    /// `key`, so where nothing is lent the borrow is absent. This default
    /// hands out nothing; a type that lends overrides it and says in its own
    /// contract on which keys the borrow is present.
    fn get_ref(&self, key: K) -> (r: Option<&Self::Value>)
        ensures
            r.is_some() ==> self.lent(key) == Some(*r.unwrap()),
    {
        None
    }

    /// Borrows the value at `key` for writing. What is handed out is the
    /// value lent at `key`, and what is written through it is the value lent
    /// there afterwards; an absent borrow leaves the vertex as it was. This
    /// default hands out nothing.
    fn get_mut(&mut self, key: K) -> (r: Option<&mut Self::Value>)
        ensures
            r.is_some() ==> old(self).lent(key) == Some(*r.unwrap()),
            r.is_some() ==> final(self).lent(key) == Some(*final(r.unwrap())),
            r.is_none() ==> *final(self) == *old(self),
    {
        None
    }
}

} // verus!
