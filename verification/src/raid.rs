//! Raid progression.

use vstd::prelude::*;

verus! {

/// How far a character has come in one raid.
#[derive(Clone, Debug, PartialEq, Eq)]
pub struct Progression {
    /// The progress in a few characters, such as `8/8 H`.
    pub summary: String,
    /// The number of bosses in the raid.
    pub total_bosses: u8,
    /// The bosses killed on normal difficulty.
    pub normal_bosses_killed: u8,
    /// The bosses killed on heroic difficulty.
    pub heroic_bosses_killed: u8,
    /// The bosses killed on mythic difficulty.
    pub mythic_bosses_killed: u8,
}

/// A character's progress in each raid of the expansion.
#[derive(Clone, Debug, PartialEq, Eq)]
pub struct RaidProgression {
    /// Battle of Dazar'alor.
    pub battle_of_dazaralor: Progression,
    /// Crucible of Storms.
    pub crucible_of_storms: Progression,
    /// Ny'alotha, the Waking City.
    pub nyalotha_the_waking_city: Progression,
    /// The Eternal Palace.
    pub the_eternal_palace: Progression,
    /// Uldir.
    pub uldir: Progression,
}

} // verus!
