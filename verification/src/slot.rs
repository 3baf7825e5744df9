//! The cell that holds the base address of the player position once it is known.

use vstd::prelude::*;

verus! {

/// A change of the discovered base address, for the host to report.
#[derive(Clone, Copy, Debug, PartialEq, Eq, Structural)]
pub struct PointerUpdate {
    /// The address held before, or zero where none was held.
    pub previous: usize,
    /// The address held from now on.
    pub current: usize,
}

/// The discovered base address, or nothing: not yet discovered, or cleared while
/// the configuration changes.
#[derive(Clone, Copy, Debug, PartialEq, Eq, Structural)]
pub struct PointerSlot {
    address: Option<usize>,
}

/// What publishing `base` does to a slot that holds `held`: the slot's new
/// content, and the change to report where there is one.
pub open spec fn published(held: Option<usize>, base: usize) -> (Option<usize>, Option<PointerUpdate>) {
    if held == Some(base) {
        (held, None)
    } else {
        (
            Some(base),
            Some(
                PointerUpdate {
                    previous: match held {
                        Some(address) => address,
                        None => 0,
                    },
                    current: base,
                },
            ),
        )
    }
}

impl View for PointerSlot {
    type V = Option<usize>;

    closed spec fn view(&self) -> Option<usize> {
        self.address
    }
}

impl PointerSlot {
    /// An empty slot.
    pub fn new() -> (slot: Self)
        ensures
            slot@ is None,
    {
        PointerSlot { address: None }
    }

    /// The address held, if any.
    pub fn get(&self) -> (address: Option<usize>)
        ensures
            address == self@,
    {
        self.address
    }

    /// Empties the slot.
    pub fn clear(&mut self)
        ensures
            final(self)@ is None,
    {
        self.address = None;
    }

    /// Puts `address` into the slot, whatever it held.
    pub fn set(&mut self, address: usize)
        ensures
            final(self)@ == Some(address),
    {
        self.address = Some(address);
    }

    /// Makes `base` the address held, and says what changed. Where the slot
    /// holds `base` already, nothing changes and nothing is reported.
    pub fn publish(&mut self, base: usize) -> (update: Option<PointerUpdate>)
        ensures
            (final(self)@, update) == published(old(self)@, base),
    {
        match self.address {
            Some(held) if held == base => None,
            Some(held) => {
                self.address = Some(base);
                Some(PointerUpdate { previous: held, current: base })
            },
            None => {
                self.address = Some(base);
                Some(PointerUpdate { previous: 0, current: base })
            },
        }
    }
}

impl Default for PointerSlot {
    fn default() -> (slot: Self)
        ensures
            slot@ is None,
    {
        PointerSlot::new()
    }
}

} // verus!
