use raider_io::gear::EssenceName;
use raider_io::mythic_plus::{AffixName, Dungeon};
use raider_io::player::{Class, Faction, Gender, Race, Role, Spec};
use raider_io::{Expansion, Region};

#[test]
fn region_names_are_those_of_the_service() {
    let table = [
        (Region::UnitedStates, "us"),
        (Region::Europe, "eu"),
        (Region::Korea, "kr"),
        (Region::Taiwan, "tw"),
    ];
    assert_eq!(table.len(), 4);
    for (value, name) in table {
        assert_eq!(value.text(), name);
        assert_eq!(Region::from_text(name), Some(value));
    }
}

#[test]
fn region_is_read_from_its_exact_name_only() {
    assert_eq!(Region::from_text(""), None);
    assert_eq!(Region::from_text("us "), None);
    assert_eq!(Region::from_text(" us"), None);
    assert_eq!(Region::from_text("US"), None);
    assert_eq!(Region::from_text("u"), None);
    assert_eq!(Region::from_text("no such region"), None);
}

#[test]
fn expansion_names_are_those_of_the_service() {
    let table = [(Expansion::BattleForAzeroth, "bfa")];
    assert_eq!(table.len(), 1);
    for (value, name) in table {
        assert_eq!(value.text(), name);
        assert_eq!(Expansion::from_text(name), Some(value));
    }
}

#[test]
fn expansion_is_read_from_its_exact_name_only() {
    assert_eq!(Expansion::from_text(""), None);
    assert_eq!(Expansion::from_text("bfa "), None);
    assert_eq!(Expansion::from_text(" bfa"), None);
    assert_eq!(Expansion::from_text("BFA"), None);
    assert_eq!(Expansion::from_text("bf"), None);
    assert_eq!(Expansion::from_text("no such expansion"), None);
}

#[test]
fn gender_names_are_those_of_the_service() {
    let table = [
        (Gender::Male, "male"),
        (Gender::Female, "female"),
    ];
    assert_eq!(table.len(), 2);
    for (value, name) in table {
        assert_eq!(value.text(), name);
        assert_eq!(Gender::from_text(name), Some(value));
    }
}

#[test]
fn gender_is_read_from_its_exact_name_only() {
    assert_eq!(Gender::from_text(""), None);
    assert_eq!(Gender::from_text("male "), None);
    assert_eq!(Gender::from_text(" male"), None);
    assert_eq!(Gender::from_text("MALE"), None);
    assert_eq!(Gender::from_text("mal"), None);
    assert_eq!(Gender::from_text("no such gender"), None);
}

#[test]
fn faction_names_are_those_of_the_service() {
    let table = [
        (Faction::Horde, "horde"),
        (Faction::Alliance, "alliance"),
    ];
    assert_eq!(table.len(), 2);
    for (value, name) in table {
        assert_eq!(value.text(), name);
        assert_eq!(Faction::from_text(name), Some(value));
    }
}

#[test]
fn faction_is_read_from_its_exact_name_only() {
    assert_eq!(Faction::from_text(""), None);
    assert_eq!(Faction::from_text("horde "), None);
    assert_eq!(Faction::from_text(" horde"), None);
    assert_eq!(Faction::from_text("HORDE"), None);
    assert_eq!(Faction::from_text("hord"), None);
    assert_eq!(Faction::from_text("no such faction"), None);
}

#[test]
fn race_names_are_those_of_the_service() {
    let table = [
        (Race::Human, "Human"),
        (Race::Dwarf, "Dwarf"),
        (Race::Gnome, "Gnome"),
        (Race::Draenei, "Draenei"),
        (Race::Worgen, "Worgen"),
        (Race::Pandaren, "Pandaren"),
        (Race::Orc, "Orc"),
        (Race::Undead, "Undead"),
        (Race::Tauren, "Tauren"),
        (Race::Troll, "Troll"),
        (Race::Goblin, "Goblin"),
        (Race::Mechagnome, "Mechagnome"),
        (Race::Nightborne, "Nightborne"),
        (Race::Vulpera, "Vulpera"),
        (Race::NightElf, "Night Elf"),
        (Race::BloodElf, "Blood Elf"),
        (Race::VoidElf, "Void Elf"),
        (Race::LightforgedDraenei, "Lightforged Draenei"),
        (Race::DarkIronDwarf, "Dark Iron Dwarf"),
        (Race::KulTiran, "Kul Tiran"),
        (Race::HighmountainTauren, "Highmountain Tauren"),
        (Race::MagharOrc, "Mag'har Orc"),
        (Race::ZandalariTroll, "Zandalari Troll"),
    ];
    assert_eq!(table.len(), 23);
    for (value, name) in table {
        assert_eq!(value.text(), name);
        assert_eq!(Race::from_text(name), Some(value));
    }
}

#[test]
fn race_is_read_from_its_exact_name_only() {
    assert_eq!(Race::from_text(""), None);
    assert_eq!(Race::from_text("Human "), None);
    assert_eq!(Race::from_text(" Human"), None);
    assert_eq!(Race::from_text("HUMAN"), None);
    assert_eq!(Race::from_text("Huma"), None);
    assert_eq!(Race::from_text("no such race"), None);
}

#[test]
fn class_names_are_those_of_the_service() {
    let table = [
        (Class::Rogue, "Rogue"),
        (Class::Warrior, "Warrior"),
        (Class::Paladin, "Paladin"),
        (Class::Hunter, "Hunter"),
        (Class::Priest, "Priest"),
        (Class::Shaman, "Shaman"),
        (Class::Mage, "Mage"),
        (Class::Warlock, "Warlock"),
        (Class::Monk, "Monk"),
        (Class::Druid, "Druid"),
        (Class::DemonHunter, "Demon Hunter"),
        (Class::DeathKnight, "Death Knight"),
    ];
    assert_eq!(table.len(), 12);
    for (value, name) in table {
        assert_eq!(value.text(), name);
        assert_eq!(Class::from_text(name), Some(value));
    }
}

#[test]
fn class_is_read_from_its_exact_name_only() {
    assert_eq!(Class::from_text(""), None);
    assert_eq!(Class::from_text("Rogue "), None);
    assert_eq!(Class::from_text(" Rogue"), None);
    assert_eq!(Class::from_text("ROGUE"), None);
    assert_eq!(Class::from_text("Rogu"), None);
    assert_eq!(Class::from_text("no such class"), None);
}

#[test]
fn spec_names_are_those_of_the_service() {
    let table = [
        (Spec::Arms, "Arms"),
        (Spec::Fury, "Fury"),
        (Spec::Protection, "Protection"),
        (Spec::Holy, "Holy"),
        (Spec::Retribution, "Retribution"),
        (Spec::BeastMastery, "Beast Mastery"),
        (Spec::Marksmanship, "Marksmanship"),
        (Spec::Survival, "Survival"),
        (Spec::Outlaw, "Outlaw"),
        (Spec::Assassination, "Assassination"),
        (Spec::Subtlety, "Subtlety"),
        (Spec::Discipline, "Discipline"),
        (Spec::Shadow, "Shadow"),
        (Spec::Elemental, "Elemental"),
        (Spec::Restoration, "Restoration"),
        (Spec::Enhancement, "Enhancement"),
        (Spec::Arcane, "Arcane"),
        (Spec::Fire, "Fire"),
        (Spec::Frost, "Frost"),
        (Spec::Affliction, "Affliction"),
        (Spec::Demonology, "Demonology"),
        (Spec::Destruction, "Destruction"),
        (Spec::Brewmaster, "Brewmaster"),
        (Spec::Mistweaver, "Mistweaver"),
        (Spec::Windwalker, "Windwalker"),
        (Spec::Balance, "Balance"),
        (Spec::Feral, "Feral"),
        (Spec::Guardian, "Guardian"),
        (Spec::Havoc, "Havoc"),
        (Spec::Vengeance, "Vengeance"),
        (Spec::Blood, "Blood"),
        (Spec::Unholy, "Unholy"),
    ];
    assert_eq!(table.len(), 32);
    for (value, name) in table {
        assert_eq!(value.text(), name);
        assert_eq!(Spec::from_text(name), Some(value));
    }
}

#[test]
fn spec_is_read_from_its_exact_name_only() {
    assert_eq!(Spec::from_text(""), None);
    assert_eq!(Spec::from_text("Arms "), None);
    assert_eq!(Spec::from_text(" Arms"), None);
    assert_eq!(Spec::from_text("ARMS"), None);
    assert_eq!(Spec::from_text("Arm"), None);
    assert_eq!(Spec::from_text("no such spec"), None);
}

#[test]
fn role_names_are_those_of_the_service() {
    let table = [
        (Role::DPS, "DPS"),
        (Role::Tank, "TANK"),
        (Role::Healing, "HEALING"),
    ];
    assert_eq!(table.len(), 3);
    for (value, name) in table {
        assert_eq!(value.text(), name);
        assert_eq!(Role::from_text(name), Some(value));
    }
}

#[test]
fn role_is_read_from_its_exact_name_only() {
    assert_eq!(Role::from_text(""), None);
    assert_eq!(Role::from_text("DPS "), None);
    assert_eq!(Role::from_text(" DPS"), None);
    assert_eq!(Role::from_text("dps"), None);
    assert_eq!(Role::from_text("DP"), None);
    assert_eq!(Role::from_text("no such role"), None);
}

#[test]
fn dungeon_names_are_those_of_the_service() {
    let table = [
        (Dungeon::MechagonWorkshop, "Mechagon Workshop"),
        (Dungeon::MechagonJunkyard, "Mechagon Junkyard"),
        (Dungeon::KingsRest, "Kings' Rest"),
        (Dungeon::Freehold, "Freehold"),
        (Dungeon::TempleOfSethraliss, "Temple of Sethraliss"),
        (Dungeon::TolDagor, "Tol Dagor"),
        (Dungeon::TheUnderrot, "The Underrot"),
        (Dungeon::ShrineOfTheStorm, "Shrine of the Storm"),
        (Dungeon::AtalDazar, "Atal'dazar"),
        (Dungeon::TheMotherlode, "The MOTHERLODE!!"),
        (Dungeon::SiegeOfBoralus, "Siege of Boralus"),
        (Dungeon::WaycrestManor, "Waycrest Manor"),
    ];
    assert_eq!(table.len(), 12);
    for (value, name) in table {
        assert_eq!(value.text(), name);
        assert_eq!(Dungeon::from_text(name), Some(value));
    }
}

#[test]
fn dungeon_is_read_from_its_exact_name_only() {
    assert_eq!(Dungeon::from_text(""), None);
    assert_eq!(Dungeon::from_text("Mechagon Workshop "), None);
    assert_eq!(Dungeon::from_text(" Mechagon Workshop"), None);
    assert_eq!(Dungeon::from_text("MECHAGON WORKSHOP"), None);
    assert_eq!(Dungeon::from_text("Mechagon Worksho"), None);
    assert_eq!(Dungeon::from_text("no such dungeon"), None);
}

#[test]
fn affix_name_names_are_those_of_the_service() {
    let table = [
        (AffixName::Fortified, "Fortified"),
        (AffixName::Tyrannical, "Tyrannical"),
        (AffixName::Bolstering, "Bolstering"),
        (AffixName::Raging, "Raging"),
        (AffixName::Sanguine, "Sanguine"),
        (AffixName::Teeming, "Teeming"),
        (AffixName::Bursting, "Bursting"),
        (AffixName::Necrotic, "Necrotic"),
        (AffixName::Skittish, "Skittish"),
        (AffixName::Volcanic, "Volcanic"),
        (AffixName::Explosive, "Explosive"),
        (AffixName::Quaking, "Quaking"),
        (AffixName::Grievous, "Grievous"),
        (AffixName::Infested, "Infested"),
        (AffixName::Reaping, "Reaping"),
        (AffixName::Beguiling, "Beguiling"),
        (AffixName::Awakened, "Awakened"),
    ];
    assert_eq!(table.len(), 17);
    for (value, name) in table {
        assert_eq!(value.text(), name);
        assert_eq!(AffixName::from_text(name), Some(value));
    }
}

#[test]
fn affix_name_is_read_from_its_exact_name_only() {
    assert_eq!(AffixName::from_text(""), None);
    assert_eq!(AffixName::from_text("Fortified "), None);
    assert_eq!(AffixName::from_text(" Fortified"), None);
    assert_eq!(AffixName::from_text("FORTIFIED"), None);
    assert_eq!(AffixName::from_text("Fortifie"), None);
    assert_eq!(AffixName::from_text("no such affix_name"), None);
}

#[test]
fn essence_name_names_are_those_of_the_service() {
    let table = [
        (EssenceName::BloodOfTheEnemy, "Blood of the Enemy"),
        (EssenceName::VisionOfPerfection, "Vision of Perfection"),
        (EssenceName::MemoryOfLucidDreams, "Memory of Lucid Dreams"),
        (EssenceName::BreathOfTheDying, "Breath of the Dying"),
        (EssenceName::FormlessVoid, "Formless Void"),
        (EssenceName::StrengthOfTheWarden, "Strength of the Warden"),
        (EssenceName::TouchOfTheEverlasting, "Touch of the Everlasting"),
        (EssenceName::SparkOfInspiration, "Spark of Inspiration"),
        (EssenceName::UnwaveringWard, "Unwavering Ward"),
        (EssenceName::SpiritOfPreservation, "Spirit of Preservation"),
        (EssenceName::TheCrucibleOfFlame, "The Crucible of Flame"),
        (EssenceName::WorldveinResonance, "Worldvein Resonance"),
        (EssenceName::RippleInSpace, "Ripple in Space"),
        (EssenceName::ConflictAndStrife, "Conflict and Strife"),
        (EssenceName::AegisOfTheDeep, "Aegis of the Deep"),
        (EssenceName::NullificationDynamo, "Nullification Dynamo"),
        (EssenceName::SphereOfSuppression, "Sphere of Suppression"),
        (EssenceName::AzerothsUndyingGift, "Azeroth's Undying Gift"),
        (EssenceName::AnimaOfLifeAndDeath, "Anima of Life and Death"),
        (EssenceName::TheEverRisingTide, "The Ever-Rising Tide"),
        (EssenceName::TheWellOfExistence, "The Well of Existence"),
        (EssenceName::ArtificeOfTime, "Artifice of Time"),
        (EssenceName::LifeBindersInvocation, "Life-Binder's Invocation"),
        (EssenceName::VitalityConduit, "Vitality Conduit"),
    ];
    assert_eq!(table.len(), 24);
    for (value, name) in table {
        assert_eq!(value.text(), name);
        assert_eq!(EssenceName::from_text(name), Some(value));
    }
}

#[test]
fn essence_name_is_read_from_its_exact_name_only() {
    assert_eq!(EssenceName::from_text(""), None);
    assert_eq!(EssenceName::from_text("Blood of the Enemy "), None);
    assert_eq!(EssenceName::from_text(" Blood of the Enemy"), None);
    assert_eq!(EssenceName::from_text("BLOOD OF THE ENEMY"), None);
    assert_eq!(EssenceName::from_text("Blood of the Enem"), None);
    assert_eq!(EssenceName::from_text("no such essence_name"), None);
}
