//! A slot for a handle that is filled in after construction, and the tick
//! counter behind the periodic diagnostics.

use vstd::prelude::*;

verus! {

/// A diagnostic is due once in this many ticks.
pub const REPORT_PERIOD: u64 = 60;

/// The counter after one more tick: it starts again at zero after the
/// largest `u64`.
pub open spec fn next_tick(ticks: nat) -> nat {
    (ticks + 1) % 0x1_0000_0000_0000_0000
}

/// Whether the diagnostic is due at this count.
pub open spec fn report_due(ticks: nat) -> bool {
    ticks % (REPORT_PERIOD as nat) == 0
}

/// Counts one tick and says whether the diagnostic is due.
pub fn tick(counter: &mut u64) -> (report: bool)
    ensures
        *final(counter) == next_tick(*old(counter) as nat),
        report == report_due(*final(counter) as nat),
{
    *counter = counter.wrapping_add(1);
    *counter % REPORT_PERIOD == 0
}

/// A handle that may not have been set yet.
pub struct GdObj<T>(pub Option<T>);

impl<T> GdObj<T> {
    /// An empty slot.
    pub fn new() -> (slot: Self)
        ensures
            slot.0.is_none(),
    {
        GdObj(None)
    }

    /// Whether the slot has been filled.
    pub fn is_set(&self) -> (set: bool)
        ensures
            set == self.0.is_some(),
    {
        self.0.is_some()
    }

    /// The handle in a filled slot.
    pub fn as_ref(&self) -> (handle: &T)
        requires
            self.0.is_some(),
        ensures
            *handle == self.0.unwrap(),
    {
        self.0.as_ref().unwrap()
    }

    /// The handle in a filled slot, to change it in place.
    pub fn as_mut(&mut self) -> (handle: &mut T)
        requires
            old(self).0.is_some(),
        ensures
            *handle == old(self).0.unwrap(),
            final(self).0 == Some(*final(handle)),
    {
        self.0.as_mut().unwrap()
    }
}

impl<T> From<T> for GdObj<T> {
    /// A slot that holds `handle`.
    fn from(handle: T) -> (slot: Self) {
        GdObj(Some(handle))
    }
}

impl<T> vstd::std_specs::convert::FromSpecImpl<T> for GdObj<T> {
    open spec fn obeys_from_spec() -> bool {
        true
    }

    open spec fn from_spec(handle: T) -> Self {
        GdObj(Some(handle))
    }
}

impl<T> Default for GdObj<T> {
    fn default() -> (slot: Self)
        ensures
            slot.0.is_none(),
    {
        GdObj(None)
    }
}

} // verus!
