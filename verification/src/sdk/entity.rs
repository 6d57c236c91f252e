use vstd::prelude::*;
use crate::sdk::cutl::CUtlString;

verus! {

/// A world entity found in the game's memory: its address, class name, and its two ammo
/// counters (`-1` when unknown).
#[derive(Copy, Clone)]
pub struct EntityBase {
    pub addr: usize,
    pub class_name: CUtlString,
    pub ammo: [i32; 2],
}

impl EntityBase {
    /// A record of the entity at `addr` with the given class name and unknown ammo.
    pub fn new(addr: usize, class_name: CUtlString) -> (r: Self)
        ensures
            r.addr == addr,
            r.class_name == class_name,
            r.ammo@ == seq![-1i32, -1i32],
    {
        let r = EntityBase { addr, class_name, ammo: [-1, -1] };
        assert(r.ammo@ =~= seq![-1i32, -1i32]);
        r
    }
}

impl Default for EntityBase {
    fn default() -> (r: Self)
        ensures
            r.addr == 0,
            r.class_name.text@ == Seq::new(512, |i: int| 0i8),
            r.ammo@ == seq![-1i32, -1i32],
    {
        let r = EntityBase { addr: 0, class_name: CUtlString::default(), ammo: [-1, -1] };
        assert(r.ammo@ =~= seq![-1i32, -1i32]);
        r
    }
}

} // verus!
