use vstd::prelude::*;

verus! {

/// A one-shot handoff slot: one side stores a value once it is complete,
/// the other takes it out exactly once.
pub struct Dispenser<T> {
    slot: Option<T>,
}

impl<T> View for Dispenser<T> {
    type V = Option<T>;

    /// The value waiting in the slot, if any.
    closed spec fn view(&self) -> Option<T> {
        self.slot
    }
}

impl<T> Dispenser<T> {
    /// An empty slot.
    pub fn new() -> (r: Dispenser<T>)
        ensures
            r@ == None::<T>,
    {
        Dispenser { slot: None }
    }

    /// Puts `data` in the slot, replacing whatever was there.
    pub fn store(&mut self, data: T)
        ensures
            final(self)@ == Some(data),
    {
        self.slot = Some(data);
    }

    /// Whether a value is waiting in the slot.
    pub fn is_stored(&self) -> (r: bool)
        ensures
            r == self@.is_some(),
    {
        self.slot.is_some()
    }

    /// Takes the stored value out, leaving the slot empty.
    pub fn take(&mut self) -> (r: T)
        requires
            old(self)@.is_some(),
        ensures
            Some(r) == old(self)@,
            final(self)@ == None::<T>,
    {
        self.slot.take().unwrap()
    }
}

} // verus!
