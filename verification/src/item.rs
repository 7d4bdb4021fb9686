use vstd::prelude::*;

verus! {

/// What a collectible on the gold-miner board is made of.
#[derive(Clone, Copy, PartialEq, Eq, Structural, Debug)]
pub enum ItemType {
    Gold,
    Stone,
    Nothing,
}

/// A collectible item on the gold-miner board.
///
/// Positions and sizes are in milli-cells (1000 = one character cell), so the
/// sub-cell precision of the simulation is kept while all state stays in plain
/// integers. `value` is the score delta awarded when the item is landed;
/// `weight` (in milli-units, 1000 = unit weight) divides the retract speed.
#[derive(Clone, Copy, PartialEq, Eq, Structural, Debug)]
pub struct Item {
    pub x: i32,
    pub y: i32,
    pub item_type: ItemType,
    pub value: i32,
    pub size: i32,
    pub weight: i32,
}

impl Item {
    /// Field bounds every item of a well-formed game satisfies; they keep all
    /// of the simulation's fixed-point arithmetic inside `i32`/`i64` range.
    pub open spec fn wf(self) -> bool {
        &&& 1000 <= self.size <= 2000
        &&& 1 <= self.weight <= 100_000
        &&& -1000 <= self.value <= 1000
        &&& -100_000_000 <= self.x <= 100_000_000
        &&& -100_000_000 <= self.y <= 100_000_000
    }
}

} // verus!
