//! A single-slot container for a hardware resource shared between the main
//! loop and an interrupt handler. Exclusive access is what the caller's
//! critical section (interrupts masked) provides; here it is the `&mut`.
use vstd::prelude::*;

verus! {

/// Holds at most one resource; it starts empty and is filled once.
pub struct SharedResourceCell<T> {
    slot: Option<T>,
}

impl<T> View for SharedResourceCell<T> {
    type V = Option<T>;

    closed spec fn view(&self) -> Option<T> {
        self.slot
    }
}

impl<T> SharedResourceCell<T> {
    /// An empty cell.
    pub fn new() -> (r: SharedResourceCell<T>)
        ensures
            r@ is None,
    {
        SharedResourceCell { slot: None }
    }

    /// Moves `resource` into an empty cell. A cell that is already filled is
    /// not rebound: it keeps its resource and `resource` is handed back.
    pub fn install(&mut self, resource: T) -> (rejected: Option<T>)
        ensures
            old(self)@ is None ==> final(self)@ == Some(resource) && rejected is None,
            old(self)@ is Some ==> final(self)@ == old(self)@ && rejected == Some(resource),
    {
        if self.slot.is_some() {
            Some(resource)
        } else {
            self.slot = Some(resource);
            None
        }
    }

    /// Whether a resource has been installed.
    pub fn is_installed(&self) -> (r: bool)
        ensures
            r <==> self@ is Some,
    {
        self.slot.is_some()
    }

    /// Shared access to the resource, if there is one.
    pub fn get(&self) -> (r: Option<&T>)
        ensures
            r is None <==> self@ is None,
            r is Some ==> *r->0 == self@->0,
    {
        self.slot.as_ref()
    }

    /// Exclusive access to the resource, if there is one; what is written
    /// through the reference is what the cell then holds.
    pub fn get_mut(&mut self) -> (r: Option<&mut T>)
        ensures
            old(self)@ is None ==> r is None && final(self)@ is None,
            old(self)@ is Some ==> r is Some && *r->0 == old(self)@->0 && final(self)@ == Some(
                *final(r->0),
            ),
    {
        self.slot.as_mut()
    }
}

} // verus!
