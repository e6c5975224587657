//! The player's inventory and the shared stash: fixed numbers of item slots.

use vstd::prelude::*;

verus! {

/// The number of slots of a player's inventory.
pub const DEFAULT_INVENTORY_SLOTS: usize = 10;

/// The number of slots of the stash.
pub const DEFAULT_STASH_SLOTS: usize = 100;

/// Identifies an item.
#[derive(Clone, Copy, Debug, PartialEq, Eq, Structural, Hash)]
pub struct ItemId(pub u32);

/// `n` empty slots.
pub open spec fn empty_slots_of(n: nat) -> Seq<Option<ItemId>> {
    Seq::new(n, |i: int| None)
}

/// Makes `n` empty slots.
fn empty_slots(n: usize) -> (r: Vec<Option<ItemId>>)
    ensures
        r@ == empty_slots_of(n as nat),
{
    let mut r: Vec<Option<ItemId>> = Vec::new();
    let mut i: usize = 0;
    while i < n
        invariant
            i <= n,
            r@ == empty_slots_of(i as nat),
        decreases n - i,
    {
        r.push(None);
        i = i + 1;
    }
    r
}

/// A player's inventory for one mission: a slot per item it can carry.
#[derive(Debug, Clone)]
pub struct Inventory {
    pub items: Vec<Option<ItemId>>,
    pub capacity: usize,
}

impl Default for Inventory {
    fn default() -> (r: Inventory)
        ensures
            r.items@ == empty_slots_of(DEFAULT_INVENTORY_SLOTS as nat),
            r.capacity == DEFAULT_INVENTORY_SLOTS,
    {
        Inventory { items: empty_slots(DEFAULT_INVENTORY_SLOTS), capacity: DEFAULT_INVENTORY_SLOTS }
    }
}

/// The stash shared across missions: a slot per item it can keep.
#[derive(Debug, Clone)]
pub struct Stash {
    pub items: Vec<Option<ItemId>>,
    pub capacity: usize,
}

impl Default for Stash {
    fn default() -> (r: Stash)
        ensures
            r.items@ == empty_slots_of(DEFAULT_STASH_SLOTS as nat),
            r.capacity == DEFAULT_STASH_SLOTS,
    {
        Stash { items: empty_slots(DEFAULT_STASH_SLOTS), capacity: DEFAULT_STASH_SLOTS }
    }
}

} // verus!
