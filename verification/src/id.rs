use vstd::prelude::*;

verus! {

/// Identifier of a game object.
#[derive(Debug, Clone, Copy, Hash, PartialEq, Eq, Structural, PartialOrd, Ord)]
pub struct Id(pub u64);

/// Hands out identifiers in increasing order, starting from zero.
#[derive(Debug)]
pub struct IdGenerator {
    next_id: Id,
}

impl View for IdGenerator {
    type V = u64;

    /// The identifier that the next call of `gen` hands out.
    closed spec fn view(&self) -> u64 {
        self.next_id.0
    }
}

impl IdGenerator {
    /// A generator whose first identifier is zero.
    pub fn new() -> (g: Self)
        ensures
            g@ == 0,
    {
        Self { next_id: Id(0) }
    }

    /// Returns the next identifier and moves past it.
    pub fn gen(&mut self) -> (id: Id)
        requires
            old(self)@ < u64::MAX,
        ensures
            id.0 == old(self)@,
            final(self)@ == old(self)@ + 1,
            id.0 < final(self)@,
    {
        let id = self.next_id;
        self.next_id.0 = self.next_id.0 + 1;
        id
    }
}

impl Clone for IdGenerator {
    fn clone(&self) -> (g: Self)
        ensures
            g@ == self@,
    {
        IdGenerator { next_id: self.next_id }
    }
}

impl Default for IdGenerator {
    fn default() -> (g: Self)
        ensures
            g@ == 0,
    {
        Self::new()
    }
}

} // verus!
