//! The player's carried items and vital statistics: plain bookkeeping data
//! shown by the HUD.

use vstd::prelude::*;

verus! {

#[derive(Clone, Copy, PartialEq, Eq, Structural, Debug, Default)]
pub struct PlayerInventory {
    pub bandages: u16,
    pub armor_bits: u16,
    pub grenades: u16,
    pub ninemm_ammo: u16,
}

#[derive(Clone, Copy, PartialEq, Eq, Structural, Debug)]
pub struct PlayerStats {
    pub health: i16,
    pub armor: i16,
    pub max_health: i16,
    pub max_armor: i16,
}

impl Default for PlayerStats {
    /// Full health and armor, with room to double the armor.
    fn default() -> (r: Self)
        ensures
            r.health == 100,
            r.armor == 100,
            r.max_health == 100,
            r.max_armor == 200,
    {
        PlayerStats { health: 100, armor: 100, max_health: 100, max_armor: 200 }
    }
}

} // verus!
