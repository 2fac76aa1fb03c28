//! The connection slot: the one place where the live connection is kept.

use vstd::prelude::*;

verus! {

/// A slot that holds the live connection, or nothing. There is never more than
/// one connection in it: a new one takes the place of the old one, which is
/// handed back to be torn down.
pub struct ConnectionSlot<C> {
    pub current: Option<C>,
}

impl<C> ConnectionSlot<C> {
    /// An empty slot.
    pub fn new() -> (slot: Self)
        ensures
            slot.current is None,
    {
        ConnectionSlot { current: None }
    }

    /// Whether a connection is in the slot.
    pub fn is_live(&self) -> (live: bool)
        ensures
            live == self.current is Some,
    {
        self.current.is_some()
    }

    /// The connection in the slot, if there is one.
    pub fn get(&self) -> (handle: Option<&C>)
        ensures
            handle == match self.current {
                Some(connection) => Some(&connection),
                None => None,
            },
    {
        self.current.as_ref()
    }

    /// Puts `connection` in the slot, or empties the slot with `None`, and
    /// hands back what was in it before.
    pub fn set_client(&mut self, connection: Option<C>) -> (previous: Option<C>)
        ensures
            final(self).current == connection,
            previous == old(self).current,
    {
        let previous = self.current.take();
        self.current = connection;
        previous
    }

    /// Puts `connection` in the slot and hands back the one it has replaced.
    pub fn replace(&mut self, connection: C) -> (previous: Option<C>)
        ensures
            final(self).current == Some(connection),
            previous == old(self).current,
    {
        self.set_client(Some(connection))
    }
}

} // verus!
