//! A peripheral holder shared between the main context and an interrupt
//! handler.
//!
//! Setup installs the peripheral once, before interrupts are enabled; from
//! then on each context reaches it through an exclusive borrow, which the
//! caller takes inside a critical section (interrupts masked). An empty
//! cell at that point means setup was skipped: `access` does not accept
//! it, and `try_access` reports it so that the caller can halt.
use vstd::prelude::*;

verus! {

pub struct SharedCell<T> {
    /// The installed peripheral; `None` until setup installs one.
    pub slot: Option<T>,
}

impl<T> View for SharedCell<T> {
    type V = Option<T>;

    open spec fn view(&self) -> Option<T> {
        self.slot
    }
}

impl<T> SharedCell<T> {
    /// An empty cell.
    pub fn new() -> (r: Self)
        ensures
            r@ is None,
    {
        SharedCell { slot: None }
    }

    /// Stores `value`, replacing whatever the cell held.
    pub fn install(&mut self, value: T)
        ensures
            final(self)@ == Some(value),
    {
        self.slot = Some(value);
    }

    /// Whether setup has installed a value.
    pub fn is_installed(&self) -> (r: bool)
        ensures
            r == self@ is Some,
    {
        self.slot.is_some()
    }

    /// The installed value, borrowed for the length of one critical section.
    pub fn access(&mut self) -> (r: &mut T)
        requires
            old(self)@ is Some,
        ensures
            *r == old(self)@->0,
            final(self)@ == Some(*final(r)),
    {
        match &mut self.slot {
            Some(value) => value,
            None => vstd::pervasive::unreached(),
        }
    }

    /// The installed value, or `None` when the cell is empty.
    pub fn try_access(&mut self) -> (r: Option<&mut T>)
        ensures
            r is None <==> old(self)@ is None,
            r is None ==> final(self)@ is None,
            r is Some ==> *r->0 == old(self)@->0 && final(self)@ == Some(*final(r->0)),
    {
        self.slot.as_mut()
    }
}

} // verus!
