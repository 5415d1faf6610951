//! What a character wears: items, their azerite powers and corruption, and
//! the Heart of Azeroth with its essences.

use crate::number::{DoubleBits, SingleBits};
use crate::text::same_text;
use vstd::prelude::*;

verus! {

/// The corruption of an item or of a character's whole gear.
#[derive(Clone, Debug, PartialEq, Eq)]
pub struct Corruption {
    /// The corruption that the gear adds.
    pub added: u64,
    /// The corruption that the gear resists.
    pub resisted: u64,
    /// What is left of the first after the second.
    pub total: u64,
    /// The rank of the legendary cloak, sent under the name `cloakRank`.
    pub cloak_ranks: Option<u8>,
    /// The corruption effects.
    pub spells: Option<Vec<Spell>>,
}

/// A spell that an item or a power grants.
#[derive(Clone, Debug, PartialEq, Eq)]
pub struct Spell {
    /// The game's number for the spell.
    pub id: u64,
    /// The spell's name.
    pub name: String,
    /// The name of the spell's icon.
    pub icon: String,
    /// The school of magic, by its number.
    pub school: u64,
    /// The spell's rank, where it has one.
    pub rank: Option<String>,
}

/// The items that a character wears, by the place where each is worn.
#[derive(Clone, Debug, PartialEq, Eq)]
pub struct Items {
    /// The item worn at the head.
    pub head: Item,
    /// The item worn at the neck.
    pub neck: Item,
    /// The item worn at the shoulder.
    pub shoulder: Item,
    /// The item worn at the back.
    pub back: Item,
    /// The item worn at the chest.
    pub chest: Item,
    /// The item worn at the waist.
    pub waist: Item,
    /// The item worn at the shirt.
    pub shirt: Item,
    /// The item worn at the wrist.
    pub wrist: Item,
    /// The item worn at the hands.
    pub hands: Item,
    /// The item worn at the legs.
    pub legs: Item,
    /// The item worn at the feet.
    pub feet: Item,
    /// The item worn at the first finger.
    pub finger1: Item,
    /// The item worn at the second finger.
    pub finger2: Item,
    /// The item worn at the first trinket.
    pub trinket1: Item,
    /// The item worn at the second trinket.
    pub trinket2: Item,
    /// The item worn at the main hand.
    pub mainhand: Item,
    /// The item worn at the off hand.
    pub offhand: Item,
}

/// How rare an item is, from the commonest to the rarest.
#[derive(Clone, Copy, Debug, PartialEq, Eq, Hash, Structural)]
pub enum Quality {
    /// Grey items.
    Poor,
    /// White items.
    Common,
    /// Green items.
    Uncommon,
    /// Blue items.
    Rare,
    /// Purple items.
    Epic,
    /// Orange items.
    Legendary,
    /// Artifact weapons.
    Artifact,
}

impl Quality {
    /// The number by which the service writes this quality: its place in the
    /// order from `Poor`, which is 0, to `Artifact`, which is 6.
    pub open spec fn wire_code(self) -> u8 {
        match self {
            Quality::Poor => 0,
            Quality::Common => 1,
            Quality::Uncommon => 2,
            Quality::Rare => 3,
            Quality::Epic => 4,
            Quality::Legendary => 5,
            Quality::Artifact => 6,
        }
    }

    /// The quality that a number writes, if it writes one.
    pub open spec fn from_wire_code(code: u8) -> Option<Quality> {
        if code == 0 {
            Some(Quality::Poor)
        } else if code == 1 {
            Some(Quality::Common)
        } else if code == 2 {
            Some(Quality::Uncommon)
        } else if code == 3 {
            Some(Quality::Rare)
        } else if code == 4 {
            Some(Quality::Epic)
        } else if code == 5 {
            Some(Quality::Legendary)
        } else if code == 6 {
            Some(Quality::Artifact)
        } else {
            None
        }
    }

    /// The number by which the service writes this quality.
    pub fn code(&self) -> (res: u8)
        ensures
            res == self.wire_code(),
    {
        match self {
            Quality::Poor => 0,
            Quality::Common => 1,
            Quality::Uncommon => 2,
            Quality::Rare => 3,
            Quality::Epic => 4,
            Quality::Legendary => 5,
            Quality::Artifact => 6,
        }
    }

    /// Reads a quality from the number by which the service writes it.
    pub fn from_code(code: u8) -> (res: Option<Quality>)
        ensures
            res == Quality::from_wire_code(code),
    {
        match code {
            0 => Some(Quality::Poor),
            1 => Some(Quality::Common),
            2 => Some(Quality::Uncommon),
            3 => Some(Quality::Rare),
            4 => Some(Quality::Epic),
            5 => Some(Quality::Legendary),
            6 => Some(Quality::Artifact),
            _ => None,
        }
    }

    /// Every quality is read back from its own number, and a number is read as
    /// a quality only if it is that quality's own.
    pub proof fn lemma_wire_code_round_trip(self, code: u8)
        ensures
            Quality::from_wire_code(self.wire_code()) == Some(self),
            Quality::from_wire_code(code) == Some(self) ==> self.wire_code() == code,
    {
    }
}

/// An azerite power chosen on an item.
#[derive(Clone, Debug, PartialEq, Eq)]
pub struct AzeritePower {
    /// The game's number for the power.
    pub id: u64,
    /// The spell that the power grants.
    pub spell: Spell,
    /// The ring of the item on which the power sits.
    pub tier: u64,
}

/// An essence of the Heart of Azeroth.
#[derive(Clone, Copy, Debug, PartialEq, Eq, Hash, Structural)]
pub enum EssenceName {
    BloodOfTheEnemy,
    VisionOfPerfection,
    MemoryOfLucidDreams,
    BreathOfTheDying,
    FormlessVoid,
    StrengthOfTheWarden,
    TouchOfTheEverlasting,
    SparkOfInspiration,
    UnwaveringWard,
    SpiritOfPreservation,
    TheCrucibleOfFlame,
    WorldveinResonance,
    RippleInSpace,
    ConflictAndStrife,
    AegisOfTheDeep,
    NullificationDynamo,
    SphereOfSuppression,
    AzerothsUndyingGift,
    AnimaOfLifeAndDeath,
    TheEverRisingTide,
    TheWellOfExistence,
    ArtificeOfTime,
    LifeBindersInvocation,
    VitalityConduit,
}

impl EssenceName {
    /// The text by which the service writes this essence.
    pub open spec fn wire_name(self) -> Seq<char> {
        match self {
            EssenceName::BloodOfTheEnemy => "Blood of the Enemy"@,
            EssenceName::VisionOfPerfection => "Vision of Perfection"@,
            EssenceName::MemoryOfLucidDreams => "Memory of Lucid Dreams"@,
            EssenceName::BreathOfTheDying => "Breath of the Dying"@,
            EssenceName::FormlessVoid => "Formless Void"@,
            EssenceName::StrengthOfTheWarden => "Strength of the Warden"@,
            EssenceName::TouchOfTheEverlasting => "Touch of the Everlasting"@,
            EssenceName::SparkOfInspiration => "Spark of Inspiration"@,
            EssenceName::UnwaveringWard => "Unwavering Ward"@,
            EssenceName::SpiritOfPreservation => "Spirit of Preservation"@,
            EssenceName::TheCrucibleOfFlame => "The Crucible of Flame"@,
            EssenceName::WorldveinResonance => "Worldvein Resonance"@,
            EssenceName::RippleInSpace => "Ripple in Space"@,
            EssenceName::ConflictAndStrife => "Conflict and Strife"@,
            EssenceName::AegisOfTheDeep => "Aegis of the Deep"@,
            EssenceName::NullificationDynamo => "Nullification Dynamo"@,
            EssenceName::SphereOfSuppression => "Sphere of Suppression"@,
            EssenceName::AzerothsUndyingGift => "Azeroth's Undying Gift"@,
            EssenceName::AnimaOfLifeAndDeath => "Anima of Life and Death"@,
            EssenceName::TheEverRisingTide => "The Ever-Rising Tide"@,
            EssenceName::TheWellOfExistence => "The Well of Existence"@,
            EssenceName::ArtificeOfTime => "Artifice of Time"@,
            EssenceName::LifeBindersInvocation => "Life-Binder's Invocation"@,
            EssenceName::VitalityConduit => "Vitality Conduit"@,
        }
    }

    /// The essence that `name` writes, if it writes one. Case and blanks count.
    pub open spec fn from_wire_name(name: Seq<char>) -> Option<EssenceName> {
        if name == "Blood of the Enemy"@ {
            Some(EssenceName::BloodOfTheEnemy)
        } else if name == "Vision of Perfection"@ {
            Some(EssenceName::VisionOfPerfection)
        } else if name == "Memory of Lucid Dreams"@ {
            Some(EssenceName::MemoryOfLucidDreams)
        } else if name == "Breath of the Dying"@ {
            Some(EssenceName::BreathOfTheDying)
        } else if name == "Formless Void"@ {
            Some(EssenceName::FormlessVoid)
        } else if name == "Strength of the Warden"@ {
            Some(EssenceName::StrengthOfTheWarden)
        } else if name == "Touch of the Everlasting"@ {
            Some(EssenceName::TouchOfTheEverlasting)
        } else if name == "Spark of Inspiration"@ {
            Some(EssenceName::SparkOfInspiration)
        } else if name == "Unwavering Ward"@ {
            Some(EssenceName::UnwaveringWard)
        } else if name == "Spirit of Preservation"@ {
            Some(EssenceName::SpiritOfPreservation)
        } else if name == "The Crucible of Flame"@ {
            Some(EssenceName::TheCrucibleOfFlame)
        } else if name == "Worldvein Resonance"@ {
            Some(EssenceName::WorldveinResonance)
        } else if name == "Ripple in Space"@ {
            Some(EssenceName::RippleInSpace)
        } else if name == "Conflict and Strife"@ {
            Some(EssenceName::ConflictAndStrife)
        } else if name == "Aegis of the Deep"@ {
            Some(EssenceName::AegisOfTheDeep)
        } else if name == "Nullification Dynamo"@ {
            Some(EssenceName::NullificationDynamo)
        } else if name == "Sphere of Suppression"@ {
            Some(EssenceName::SphereOfSuppression)
        } else if name == "Azeroth's Undying Gift"@ {
            Some(EssenceName::AzerothsUndyingGift)
        } else if name == "Anima of Life and Death"@ {
            Some(EssenceName::AnimaOfLifeAndDeath)
        } else if name == "The Ever-Rising Tide"@ {
            Some(EssenceName::TheEverRisingTide)
        } else if name == "The Well of Existence"@ {
            Some(EssenceName::TheWellOfExistence)
        } else if name == "Artifice of Time"@ {
            Some(EssenceName::ArtificeOfTime)
        } else if name == "Life-Binder's Invocation"@ {
            Some(EssenceName::LifeBindersInvocation)
        } else if name == "Vitality Conduit"@ {
            Some(EssenceName::VitalityConduit)
        } else {
            None
        }
    }

    /// The text by which the service writes this essence.
    pub fn text(&self) -> (res: &'static str)
        ensures
            res@ == self.wire_name(),
    {
        match self {
            EssenceName::BloodOfTheEnemy => "Blood of the Enemy",
            EssenceName::VisionOfPerfection => "Vision of Perfection",
            EssenceName::MemoryOfLucidDreams => "Memory of Lucid Dreams",
            EssenceName::BreathOfTheDying => "Breath of the Dying",
            EssenceName::FormlessVoid => "Formless Void",
            EssenceName::StrengthOfTheWarden => "Strength of the Warden",
            EssenceName::TouchOfTheEverlasting => "Touch of the Everlasting",
            EssenceName::SparkOfInspiration => "Spark of Inspiration",
            EssenceName::UnwaveringWard => "Unwavering Ward",
            EssenceName::SpiritOfPreservation => "Spirit of Preservation",
            EssenceName::TheCrucibleOfFlame => "The Crucible of Flame",
            EssenceName::WorldveinResonance => "Worldvein Resonance",
            EssenceName::RippleInSpace => "Ripple in Space",
            EssenceName::ConflictAndStrife => "Conflict and Strife",
            EssenceName::AegisOfTheDeep => "Aegis of the Deep",
            EssenceName::NullificationDynamo => "Nullification Dynamo",
            EssenceName::SphereOfSuppression => "Sphere of Suppression",
            EssenceName::AzerothsUndyingGift => "Azeroth's Undying Gift",
            EssenceName::AnimaOfLifeAndDeath => "Anima of Life and Death",
            EssenceName::TheEverRisingTide => "The Ever-Rising Tide",
            EssenceName::TheWellOfExistence => "The Well of Existence",
            EssenceName::ArtificeOfTime => "Artifice of Time",
            EssenceName::LifeBindersInvocation => "Life-Binder's Invocation",
            EssenceName::VitalityConduit => "Vitality Conduit",
        }
    }

    /// Reads a essence from the text by which the service writes it.
    pub fn from_text(name: &str) -> (res: Option<EssenceName>)
        ensures
            res == EssenceName::from_wire_name(name@),
    {
        if same_text(name, "Blood of the Enemy") {
            Some(EssenceName::BloodOfTheEnemy)
        } else if same_text(name, "Vision of Perfection") {
            Some(EssenceName::VisionOfPerfection)
        } else if same_text(name, "Memory of Lucid Dreams") {
            Some(EssenceName::MemoryOfLucidDreams)
        } else if same_text(name, "Breath of the Dying") {
            Some(EssenceName::BreathOfTheDying)
        } else if same_text(name, "Formless Void") {
            Some(EssenceName::FormlessVoid)
        } else if same_text(name, "Strength of the Warden") {
            Some(EssenceName::StrengthOfTheWarden)
        } else if same_text(name, "Touch of the Everlasting") {
            Some(EssenceName::TouchOfTheEverlasting)
        } else if same_text(name, "Spark of Inspiration") {
            Some(EssenceName::SparkOfInspiration)
        } else if same_text(name, "Unwavering Ward") {
            Some(EssenceName::UnwaveringWard)
        } else if same_text(name, "Spirit of Preservation") {
            Some(EssenceName::SpiritOfPreservation)
        } else if same_text(name, "The Crucible of Flame") {
            Some(EssenceName::TheCrucibleOfFlame)
        } else if same_text(name, "Worldvein Resonance") {
            Some(EssenceName::WorldveinResonance)
        } else if same_text(name, "Ripple in Space") {
            Some(EssenceName::RippleInSpace)
        } else if same_text(name, "Conflict and Strife") {
            Some(EssenceName::ConflictAndStrife)
        } else if same_text(name, "Aegis of the Deep") {
            Some(EssenceName::AegisOfTheDeep)
        } else if same_text(name, "Nullification Dynamo") {
            Some(EssenceName::NullificationDynamo)
        } else if same_text(name, "Sphere of Suppression") {
            Some(EssenceName::SphereOfSuppression)
        } else if same_text(name, "Azeroth's Undying Gift") {
            Some(EssenceName::AzerothsUndyingGift)
        } else if same_text(name, "Anima of Life and Death") {
            Some(EssenceName::AnimaOfLifeAndDeath)
        } else if same_text(name, "The Ever-Rising Tide") {
            Some(EssenceName::TheEverRisingTide)
        } else if same_text(name, "The Well of Existence") {
            Some(EssenceName::TheWellOfExistence)
        } else if same_text(name, "Artifice of Time") {
            Some(EssenceName::ArtificeOfTime)
        } else if same_text(name, "Life-Binder's Invocation") {
            Some(EssenceName::LifeBindersInvocation)
        } else if same_text(name, "Vitality Conduit") {
            Some(EssenceName::VitalityConduit)
        } else {
            None
        }
    }

    /// Every essence is read back from its own text.
    pub proof fn lemma_wire_name_round_trip(self)
        ensures
            EssenceName::from_wire_name(self.wire_name()) == Some(self),
    {
        reveal_strlit("Blood of the Enemy");
        assert("Blood of the Enemy"@.len() == 18 && "Blood of the Enemy"@[4] == 'd');
        reveal_strlit("Vision of Perfection");
        assert("Vision of Perfection"@.len() == 20 && "Vision of Perfection"@[4] == 'o');
        reveal_strlit("Memory of Lucid Dreams");
        assert("Memory of Lucid Dreams"@.len() == 22 && "Memory of Lucid Dreams"@[4] == 'r');
        reveal_strlit("Breath of the Dying");
        assert("Breath of the Dying"@.len() == 19 && "Breath of the Dying"@[4] == 't');
        reveal_strlit("Formless Void");
        assert("Formless Void"@.len() == 13 && "Formless Void"@[4] == 'l');
        reveal_strlit("Strength of the Warden");
        assert("Strength of the Warden"@.len() == 22 && "Strength of the Warden"@[4] == 'n');
        reveal_strlit("Touch of the Everlasting");
        assert("Touch of the Everlasting"@.len() == 24 && "Touch of the Everlasting"@[4] == 'h');
        reveal_strlit("Spark of Inspiration");
        assert("Spark of Inspiration"@.len() == 20 && "Spark of Inspiration"@[4] == 'k');
        reveal_strlit("Unwavering Ward");
        assert("Unwavering Ward"@.len() == 15 && "Unwavering Ward"@[4] == 'v');
        reveal_strlit("Spirit of Preservation");
        assert("Spirit of Preservation"@.len() == 22 && "Spirit of Preservation"@[4] == 'i');
        reveal_strlit("The Crucible of Flame");
        assert("The Crucible of Flame"@.len() == 21 && "The Crucible of Flame"@[4] == 'C');
        reveal_strlit("Worldvein Resonance");
        assert("Worldvein Resonance"@.len() == 19 && "Worldvein Resonance"@[4] == 'd');
        reveal_strlit("Ripple in Space");
        assert("Ripple in Space"@.len() == 15 && "Ripple in Space"@[4] == 'l');
        reveal_strlit("Conflict and Strife");
        assert("Conflict and Strife"@.len() == 19 && "Conflict and Strife"@[4] == 'l');
        reveal_strlit("Aegis of the Deep");
        assert("Aegis of the Deep"@.len() == 17 && "Aegis of the Deep"@[4] == 's');
        reveal_strlit("Nullification Dynamo");
        assert("Nullification Dynamo"@.len() == 20 && "Nullification Dynamo"@[4] == 'i');
        reveal_strlit("Sphere of Suppression");
        assert("Sphere of Suppression"@.len() == 21 && "Sphere of Suppression"@[4] == 'r');
        reveal_strlit("Azeroth's Undying Gift");
        assert("Azeroth's Undying Gift"@.len() == 22 && "Azeroth's Undying Gift"@[4] == 'o');
        reveal_strlit("Anima of Life and Death");
        assert("Anima of Life and Death"@.len() == 23 && "Anima of Life and Death"@[4] == 'a');
        reveal_strlit("The Ever-Rising Tide");
        assert("The Ever-Rising Tide"@.len() == 20 && "The Ever-Rising Tide"@[4] == 'E');
        reveal_strlit("The Well of Existence");
        assert("The Well of Existence"@.len() == 21 && "The Well of Existence"@[4] == 'W');
        reveal_strlit("Artifice of Time");
        assert("Artifice of Time"@.len() == 16 && "Artifice of Time"@[4] == 'f');
        reveal_strlit("Life-Binder's Invocation");
        assert("Life-Binder's Invocation"@.len() == 24 && "Life-Binder's Invocation"@[4] == '-');
        reveal_strlit("Vitality Conduit");
        assert("Vitality Conduit"@.len() == 16 && "Vitality Conduit"@[4] == 'l');
    }

    /// A text is read as a essence only if it is that essence's own text.
    pub proof fn lemma_wire_name_unique(name: Seq<char>, value: EssenceName)
        requires
            EssenceName::from_wire_name(name) == Some(value),
        ensures
            value.wire_name() == name,
    {
    }
}

/// An essence with its description.
#[derive(Clone, Debug, PartialEq, Eq)]
pub struct Essence {
    /// The game's number for the essence.
    pub id: u64,
    /// Which essence it is.
    pub name: EssenceName,
    /// What the essence does, in words.
    pub description: String,
}

/// An essence at one of its ranks.
#[derive(Clone, Debug, PartialEq, Eq)]
pub struct EssencePower {
    /// The game's number for the power.
    pub id: u64,
    /// The essence.
    pub essence: Essence,
    /// The rank's number, sent under the name `tierId`.
    pub tier_id: u64,
    /// The spell of the major power, sent under the name `majorPowerSpell`.
    pub major_power_spell: Spell,
    /// The spell of the minor power, sent under the name `minorPowerSpell`.
    pub minor_power_spell: Spell,
}

/// A slot of the Heart of Azeroth with the essence in it.
#[derive(Clone, Debug, PartialEq, Eq)]
pub struct EssenceSlot {
    /// The slot's number; slot 0 holds the major essence.
    pub slot: u8,
    /// The game's number for the essence.
    pub id: u64,
    /// The essence's rank.
    pub rank: u8,
    /// The essence at that rank.
    pub power: EssencePower,
}

/// The Heart of Azeroth necklace.
#[derive(Clone, Debug, PartialEq, Eq)]
pub struct HeartOfAzeroth {
    /// The essences in its slots.
    pub essences: Vec<EssenceSlot>,
    /// The necklace's level.
    pub level: u64,
    /// How far the necklace is on the way to its next level.
    pub progress: DoubleBits,
}

/// An item that a character wears.
#[derive(Clone, Debug, PartialEq, Eq)]
pub struct Item {
    /// The game's number for the item.
    pub item_id: u64,
    /// The item's level.
    pub item_level: u64,
    /// How rare the item is.
    pub item_quality: Quality,
    /// The name of the item's icon.
    pub icon: String,
    /// Whether it is a legendary item of the Legion expansion.
    pub is_legion_legendary: bool,
    /// Whether it is azerite armor.
    pub is_azerite_armor: bool,
    /// The azerite powers chosen on the item.
    pub azerite_powers: Vec<AzeritePower>,
    /// The item's corruption.
    pub corruption: Corruption,
    /// The gems in the item, by the game's numbers.
    pub gems: Vec<u64>,
    /// The item's bonuses, by the game's numbers.
    pub bonuses: Vec<u64>,
    /// The Heart of Azeroth, where the item is that necklace.
    pub heart_of_azeroth: Option<HeartOfAzeroth>,
}

/// All that a character wears.
#[derive(Clone, Debug, PartialEq, Eq)]
pub struct Gear {
    /// The average level of the items worn.
    pub item_level_equipped: u64,
    /// The sum of the levels of the items worn.
    pub item_level_total: u64,
    /// The number of artifact traits.
    pub artifact_traits: SingleBits,
    /// The corruption of the gear as a whole.
    pub corruption: Corruption,
    /// The items, by the place where each is worn.
    pub items: Items,
}

} // verus!
