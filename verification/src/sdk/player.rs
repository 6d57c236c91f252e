use vstd::prelude::*;

verus! {

/// Where a player's pawn and controller live in the game's memory, and its slot index.
#[derive(Copy, Clone)]
pub struct PlayerBase {
    pub pawn: usize,
    pub controller: usize,
    pub idx: u32,
}

impl PlayerBase {
    /// A record of the given pawn and controller addresses and slot.
    pub fn new(pawn: usize, controller: usize, idx: u32) -> (r: Self)
        ensures
            r.pawn == pawn,
            r.controller == controller,
            r.idx == idx,
    {
        PlayerBase { pawn, controller, idx }
    }
}

impl Default for PlayerBase {
    fn default() -> (r: Self)
        ensures
            r.pawn == 0,
            r.controller == 0,
            r.idx == 0,
    {
        PlayerBase { pawn: 0, controller: 0, idx: 0 }
    }
}

} // verus!
