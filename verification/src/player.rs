//! Who a character is: guild, gender, faction, race, class, specialization
//! and role, each with the text by which the service writes it.

use crate::text::same_text;
use vstd::prelude::*;

verus! {

/// The guild that a character is in.
#[derive(Clone, Debug, PartialEq, Eq)]
pub struct Guild {
    /// The guild's name.
    pub name: String,
    /// The realm that the guild is on.
    pub realm: String,
}

/// A character's gender.
#[derive(Clone, Copy, Debug, PartialEq, Eq, Hash, Structural)]
pub enum Gender {
    Male,
    Female,
}

impl Gender {
    /// The text by which the service writes this gender.
    pub open spec fn wire_name(self) -> Seq<char> {
        match self {
            Gender::Male => "male"@,
            Gender::Female => "female"@,
        }
    }

    /// The gender that `name` writes, if it writes one. Case and blanks count.
    pub open spec fn from_wire_name(name: Seq<char>) -> Option<Gender> {
        if name == "male"@ {
            Some(Gender::Male)
        } else if name == "female"@ {
            Some(Gender::Female)
        } else {
            None
        }
    }

    /// The text by which the service writes this gender.
    pub fn text(&self) -> (res: &'static str)
        ensures
            res@ == self.wire_name(),
    {
        match self {
            Gender::Male => "male",
            Gender::Female => "female",
        }
    }

    /// Reads a gender from the text by which the service writes it.
    pub fn from_text(name: &str) -> (res: Option<Gender>)
        ensures
            res == Gender::from_wire_name(name@),
    {
        if same_text(name, "male") {
            Some(Gender::Male)
        } else if same_text(name, "female") {
            Some(Gender::Female)
        } else {
            None
        }
    }

    /// Every gender is read back from its own text.
    pub proof fn lemma_wire_name_round_trip(self)
        ensures
            Gender::from_wire_name(self.wire_name()) == Some(self),
    {
        reveal_strlit("male");
        assert("male"@.len() == 4);
        reveal_strlit("female");
        assert("female"@.len() == 6);
    }

    /// A text is read as a gender only if it is that gender's own text.
    pub proof fn lemma_wire_name_unique(name: Seq<char>, value: Gender)
        requires
            Gender::from_wire_name(name) == Some(value),
        ensures
            value.wire_name() == name,
    {
    }
}

/// The faction that a character fights for.
#[derive(Clone, Copy, Debug, PartialEq, Eq, Hash, Structural)]
pub enum Faction {
    Horde,
    Alliance,
}

impl Faction {
    /// The text by which the service writes this faction.
    pub open spec fn wire_name(self) -> Seq<char> {
        match self {
            Faction::Horde => "horde"@,
            Faction::Alliance => "alliance"@,
        }
    }

    /// The faction that `name` writes, if it writes one. Case and blanks count.
    pub open spec fn from_wire_name(name: Seq<char>) -> Option<Faction> {
        if name == "horde"@ {
            Some(Faction::Horde)
        } else if name == "alliance"@ {
            Some(Faction::Alliance)
        } else {
            None
        }
    }

    /// The text by which the service writes this faction.
    pub fn text(&self) -> (res: &'static str)
        ensures
            res@ == self.wire_name(),
    {
        match self {
            Faction::Horde => "horde",
            Faction::Alliance => "alliance",
        }
    }

    /// Reads a faction from the text by which the service writes it.
    pub fn from_text(name: &str) -> (res: Option<Faction>)
        ensures
            res == Faction::from_wire_name(name@),
    {
        if same_text(name, "horde") {
            Some(Faction::Horde)
        } else if same_text(name, "alliance") {
            Some(Faction::Alliance)
        } else {
            None
        }
    }

    /// Every faction is read back from its own text.
    pub proof fn lemma_wire_name_round_trip(self)
        ensures
            Faction::from_wire_name(self.wire_name()) == Some(self),
    {
        reveal_strlit("horde");
        assert("horde"@.len() == 5);
        reveal_strlit("alliance");
        assert("alliance"@.len() == 8);
    }

    /// A text is read as a faction only if it is that faction's own text.
    pub proof fn lemma_wire_name_unique(name: Seq<char>, value: Faction)
        requires
            Faction::from_wire_name(name) == Some(value),
        ensures
            value.wire_name() == name,
    {
    }
}

/// A character's race.
#[derive(Clone, Copy, Debug, PartialEq, Eq, Hash, Structural)]
pub enum Race {
    Human,
    Dwarf,
    Gnome,
    Draenei,
    Worgen,
    Pandaren,
    Orc,
    Undead,
    Tauren,
    Troll,
    Goblin,
    Mechagnome,
    Nightborne,
    Vulpera,
    NightElf,
    BloodElf,
    VoidElf,
    LightforgedDraenei,
    DarkIronDwarf,
    KulTiran,
    HighmountainTauren,
    MagharOrc,
    ZandalariTroll,
}

impl Race {
    /// The text by which the service writes this race.
    pub open spec fn wire_name(self) -> Seq<char> {
        match self {
            Race::Human => "Human"@,
            Race::Dwarf => "Dwarf"@,
            Race::Gnome => "Gnome"@,
            Race::Draenei => "Draenei"@,
            Race::Worgen => "Worgen"@,
            Race::Pandaren => "Pandaren"@,
            Race::Orc => "Orc"@,
            Race::Undead => "Undead"@,
            Race::Tauren => "Tauren"@,
            Race::Troll => "Troll"@,
            Race::Goblin => "Goblin"@,
            Race::Mechagnome => "Mechagnome"@,
            Race::Nightborne => "Nightborne"@,
            Race::Vulpera => "Vulpera"@,
            Race::NightElf => "Night Elf"@,
            Race::BloodElf => "Blood Elf"@,
            Race::VoidElf => "Void Elf"@,
            Race::LightforgedDraenei => "Lightforged Draenei"@,
            Race::DarkIronDwarf => "Dark Iron Dwarf"@,
            Race::KulTiran => "Kul Tiran"@,
            Race::HighmountainTauren => "Highmountain Tauren"@,
            Race::MagharOrc => "Mag'har Orc"@,
            Race::ZandalariTroll => "Zandalari Troll"@,
        }
    }

    /// The race that `name` writes, if it writes one. Case and blanks count.
    pub open spec fn from_wire_name(name: Seq<char>) -> Option<Race> {
        if name == "Human"@ {
            Some(Race::Human)
        } else if name == "Dwarf"@ {
            Some(Race::Dwarf)
        } else if name == "Gnome"@ {
            Some(Race::Gnome)
        } else if name == "Draenei"@ {
            Some(Race::Draenei)
        } else if name == "Worgen"@ {
            Some(Race::Worgen)
        } else if name == "Pandaren"@ {
            Some(Race::Pandaren)
        } else if name == "Orc"@ {
            Some(Race::Orc)
        } else if name == "Undead"@ {
            Some(Race::Undead)
        } else if name == "Tauren"@ {
            Some(Race::Tauren)
        } else if name == "Troll"@ {
            Some(Race::Troll)
        } else if name == "Goblin"@ {
            Some(Race::Goblin)
        } else if name == "Mechagnome"@ {
            Some(Race::Mechagnome)
        } else if name == "Nightborne"@ {
            Some(Race::Nightborne)
        } else if name == "Vulpera"@ {
            Some(Race::Vulpera)
        } else if name == "Night Elf"@ {
            Some(Race::NightElf)
        } else if name == "Blood Elf"@ {
            Some(Race::BloodElf)
        } else if name == "Void Elf"@ {
            Some(Race::VoidElf)
        } else if name == "Lightforged Draenei"@ {
            Some(Race::LightforgedDraenei)
        } else if name == "Dark Iron Dwarf"@ {
            Some(Race::DarkIronDwarf)
        } else if name == "Kul Tiran"@ {
            Some(Race::KulTiran)
        } else if name == "Highmountain Tauren"@ {
            Some(Race::HighmountainTauren)
        } else if name == "Mag'har Orc"@ {
            Some(Race::MagharOrc)
        } else if name == "Zandalari Troll"@ {
            Some(Race::ZandalariTroll)
        } else {
            None
        }
    }

    /// The text by which the service writes this race.
    pub fn text(&self) -> (res: &'static str)
        ensures
            res@ == self.wire_name(),
    {
        match self {
            Race::Human => "Human",
            Race::Dwarf => "Dwarf",
            Race::Gnome => "Gnome",
            Race::Draenei => "Draenei",
            Race::Worgen => "Worgen",
            Race::Pandaren => "Pandaren",
            Race::Orc => "Orc",
            Race::Undead => "Undead",
            Race::Tauren => "Tauren",
            Race::Troll => "Troll",
            Race::Goblin => "Goblin",
            Race::Mechagnome => "Mechagnome",
            Race::Nightborne => "Nightborne",
            Race::Vulpera => "Vulpera",
            Race::NightElf => "Night Elf",
            Race::BloodElf => "Blood Elf",
            Race::VoidElf => "Void Elf",
            Race::LightforgedDraenei => "Lightforged Draenei",
            Race::DarkIronDwarf => "Dark Iron Dwarf",
            Race::KulTiran => "Kul Tiran",
            Race::HighmountainTauren => "Highmountain Tauren",
            Race::MagharOrc => "Mag'har Orc",
            Race::ZandalariTroll => "Zandalari Troll",
        }
    }

    /// Reads a race from the text by which the service writes it.
    pub fn from_text(name: &str) -> (res: Option<Race>)
        ensures
            res == Race::from_wire_name(name@),
    {
        if same_text(name, "Human") {
            Some(Race::Human)
        } else if same_text(name, "Dwarf") {
            Some(Race::Dwarf)
        } else if same_text(name, "Gnome") {
            Some(Race::Gnome)
        } else if same_text(name, "Draenei") {
            Some(Race::Draenei)
        } else if same_text(name, "Worgen") {
            Some(Race::Worgen)
        } else if same_text(name, "Pandaren") {
            Some(Race::Pandaren)
        } else if same_text(name, "Orc") {
            Some(Race::Orc)
        } else if same_text(name, "Undead") {
            Some(Race::Undead)
        } else if same_text(name, "Tauren") {
            Some(Race::Tauren)
        } else if same_text(name, "Troll") {
            Some(Race::Troll)
        } else if same_text(name, "Goblin") {
            Some(Race::Goblin)
        } else if same_text(name, "Mechagnome") {
            Some(Race::Mechagnome)
        } else if same_text(name, "Nightborne") {
            Some(Race::Nightborne)
        } else if same_text(name, "Vulpera") {
            Some(Race::Vulpera)
        } else if same_text(name, "Night Elf") {
            Some(Race::NightElf)
        } else if same_text(name, "Blood Elf") {
            Some(Race::BloodElf)
        } else if same_text(name, "Void Elf") {
            Some(Race::VoidElf)
        } else if same_text(name, "Lightforged Draenei") {
            Some(Race::LightforgedDraenei)
        } else if same_text(name, "Dark Iron Dwarf") {
            Some(Race::DarkIronDwarf)
        } else if same_text(name, "Kul Tiran") {
            Some(Race::KulTiran)
        } else if same_text(name, "Highmountain Tauren") {
            Some(Race::HighmountainTauren)
        } else if same_text(name, "Mag'har Orc") {
            Some(Race::MagharOrc)
        } else if same_text(name, "Zandalari Troll") {
            Some(Race::ZandalariTroll)
        } else {
            None
        }
    }

    /// Every race is read back from its own text.
    pub proof fn lemma_wire_name_round_trip(self)
        ensures
            Race::from_wire_name(self.wire_name()) == Some(self),
    {
        reveal_strlit("Human");
        assert("Human"@.len() == 5 && "Human"@[0] == 'H');
        reveal_strlit("Dwarf");
        assert("Dwarf"@.len() == 5 && "Dwarf"@[0] == 'D');
        reveal_strlit("Gnome");
        assert("Gnome"@.len() == 5 && "Gnome"@[0] == 'G');
        reveal_strlit("Draenei");
        assert("Draenei"@.len() == 7 && "Draenei"@[0] == 'D');
        reveal_strlit("Worgen");
        assert("Worgen"@.len() == 6 && "Worgen"@[0] == 'W');
        reveal_strlit("Pandaren");
        assert("Pandaren"@.len() == 8 && "Pandaren"@[0] == 'P');
        reveal_strlit("Orc");
        assert("Orc"@.len() == 3 && "Orc"@[0] == 'O');
        reveal_strlit("Undead");
        assert("Undead"@.len() == 6 && "Undead"@[0] == 'U');
        reveal_strlit("Tauren");
        assert("Tauren"@.len() == 6 && "Tauren"@[0] == 'T');
        reveal_strlit("Troll");
        assert("Troll"@.len() == 5 && "Troll"@[0] == 'T');
        reveal_strlit("Goblin");
        assert("Goblin"@.len() == 6 && "Goblin"@[0] == 'G');
        reveal_strlit("Mechagnome");
        assert("Mechagnome"@.len() == 10 && "Mechagnome"@[0] == 'M');
        reveal_strlit("Nightborne");
        assert("Nightborne"@.len() == 10 && "Nightborne"@[0] == 'N');
        reveal_strlit("Vulpera");
        assert("Vulpera"@.len() == 7 && "Vulpera"@[0] == 'V');
        reveal_strlit("Night Elf");
        assert("Night Elf"@.len() == 9 && "Night Elf"@[0] == 'N');
        reveal_strlit("Blood Elf");
        assert("Blood Elf"@.len() == 9 && "Blood Elf"@[0] == 'B');
        reveal_strlit("Void Elf");
        assert("Void Elf"@.len() == 8 && "Void Elf"@[0] == 'V');
        reveal_strlit("Lightforged Draenei");
        assert("Lightforged Draenei"@.len() == 19 && "Lightforged Draenei"@[0] == 'L');
        reveal_strlit("Dark Iron Dwarf");
        assert("Dark Iron Dwarf"@.len() == 15 && "Dark Iron Dwarf"@[0] == 'D');
        reveal_strlit("Kul Tiran");
        assert("Kul Tiran"@.len() == 9 && "Kul Tiran"@[0] == 'K');
        reveal_strlit("Highmountain Tauren");
        assert("Highmountain Tauren"@.len() == 19 && "Highmountain Tauren"@[0] == 'H');
        reveal_strlit("Mag'har Orc");
        assert("Mag'har Orc"@.len() == 11 && "Mag'har Orc"@[0] == 'M');
        reveal_strlit("Zandalari Troll");
        assert("Zandalari Troll"@.len() == 15 && "Zandalari Troll"@[0] == 'Z');
    }

    /// A text is read as a race only if it is that race's own text.
    pub proof fn lemma_wire_name_unique(name: Seq<char>, value: Race)
        requires
            Race::from_wire_name(name) == Some(value),
        ensures
            value.wire_name() == name,
    {
    }
}

/// A character's class.
#[derive(Clone, Copy, Debug, PartialEq, Eq, Hash, Structural)]
pub enum Class {
    Rogue,
    Warrior,
    Paladin,
    Hunter,
    Priest,
    Shaman,
    Mage,
    Warlock,
    Monk,
    Druid,
    DemonHunter,
    DeathKnight,
}

impl Class {
    /// The text by which the service writes this class.
    pub open spec fn wire_name(self) -> Seq<char> {
        match self {
            Class::Rogue => "Rogue"@,
            Class::Warrior => "Warrior"@,
            Class::Paladin => "Paladin"@,
            Class::Hunter => "Hunter"@,
            Class::Priest => "Priest"@,
            Class::Shaman => "Shaman"@,
            Class::Mage => "Mage"@,
            Class::Warlock => "Warlock"@,
            Class::Monk => "Monk"@,
            Class::Druid => "Druid"@,
            Class::DemonHunter => "Demon Hunter"@,
            Class::DeathKnight => "Death Knight"@,
        }
    }

    /// The class that `name` writes, if it writes one. Case and blanks count.
    pub open spec fn from_wire_name(name: Seq<char>) -> Option<Class> {
        if name == "Rogue"@ {
            Some(Class::Rogue)
        } else if name == "Warrior"@ {
            Some(Class::Warrior)
        } else if name == "Paladin"@ {
            Some(Class::Paladin)
        } else if name == "Hunter"@ {
            Some(Class::Hunter)
        } else if name == "Priest"@ {
            Some(Class::Priest)
        } else if name == "Shaman"@ {
            Some(Class::Shaman)
        } else if name == "Mage"@ {
            Some(Class::Mage)
        } else if name == "Warlock"@ {
            Some(Class::Warlock)
        } else if name == "Monk"@ {
            Some(Class::Monk)
        } else if name == "Druid"@ {
            Some(Class::Druid)
        } else if name == "Demon Hunter"@ {
            Some(Class::DemonHunter)
        } else if name == "Death Knight"@ {
            Some(Class::DeathKnight)
        } else {
            None
        }
    }

    /// The text by which the service writes this class.
    pub fn text(&self) -> (res: &'static str)
        ensures
            res@ == self.wire_name(),
    {
        match self {
            Class::Rogue => "Rogue",
            Class::Warrior => "Warrior",
            Class::Paladin => "Paladin",
            Class::Hunter => "Hunter",
            Class::Priest => "Priest",
            Class::Shaman => "Shaman",
            Class::Mage => "Mage",
            Class::Warlock => "Warlock",
            Class::Monk => "Monk",
            Class::Druid => "Druid",
            Class::DemonHunter => "Demon Hunter",
            Class::DeathKnight => "Death Knight",
        }
    }

    /// Reads a class from the text by which the service writes it.
    pub fn from_text(name: &str) -> (res: Option<Class>)
        ensures
            res == Class::from_wire_name(name@),
    {
        if same_text(name, "Rogue") {
            Some(Class::Rogue)
        } else if same_text(name, "Warrior") {
            Some(Class::Warrior)
        } else if same_text(name, "Paladin") {
            Some(Class::Paladin)
        } else if same_text(name, "Hunter") {
            Some(Class::Hunter)
        } else if same_text(name, "Priest") {
            Some(Class::Priest)
        } else if same_text(name, "Shaman") {
            Some(Class::Shaman)
        } else if same_text(name, "Mage") {
            Some(Class::Mage)
        } else if same_text(name, "Warlock") {
            Some(Class::Warlock)
        } else if same_text(name, "Monk") {
            Some(Class::Monk)
        } else if same_text(name, "Druid") {
            Some(Class::Druid)
        } else if same_text(name, "Demon Hunter") {
            Some(Class::DemonHunter)
        } else if same_text(name, "Death Knight") {
            Some(Class::DeathKnight)
        } else {
            None
        }
    }

    /// Every class is read back from its own text.
    pub proof fn lemma_wire_name_round_trip(self)
        ensures
            Class::from_wire_name(self.wire_name()) == Some(self),
    {
        reveal_strlit("Rogue");
        assert("Rogue"@.len() == 5 && "Rogue"@[3] == 'u');
        reveal_strlit("Warrior");
        assert("Warrior"@.len() == 7 && "Warrior"@[3] == 'r');
        reveal_strlit("Paladin");
        assert("Paladin"@.len() == 7 && "Paladin"@[3] == 'a');
        reveal_strlit("Hunter");
        assert("Hunter"@.len() == 6 && "Hunter"@[3] == 't');
        reveal_strlit("Priest");
        assert("Priest"@.len() == 6 && "Priest"@[3] == 'e');
        reveal_strlit("Shaman");
        assert("Shaman"@.len() == 6 && "Shaman"@[3] == 'm');
        reveal_strlit("Mage");
        assert("Mage"@.len() == 4 && "Mage"@[3] == 'e');
        reveal_strlit("Warlock");
        assert("Warlock"@.len() == 7 && "Warlock"@[3] == 'l');
        reveal_strlit("Monk");
        assert("Monk"@.len() == 4 && "Monk"@[3] == 'k');
        reveal_strlit("Druid");
        assert("Druid"@.len() == 5 && "Druid"@[3] == 'i');
        reveal_strlit("Demon Hunter");
        assert("Demon Hunter"@.len() == 12 && "Demon Hunter"@[3] == 'o');
        reveal_strlit("Death Knight");
        assert("Death Knight"@.len() == 12 && "Death Knight"@[3] == 't');
    }

    /// A text is read as a class only if it is that class's own text.
    pub proof fn lemma_wire_name_unique(name: Seq<char>, value: Class)
        requires
            Class::from_wire_name(name) == Some(value),
        ensures
            value.wire_name() == name,
    {
    }
}

/// A specialization of a class.
#[derive(Clone, Copy, Debug, PartialEq, Eq, Hash, Structural)]
pub enum Spec {
    Arms,
    Fury,
    Protection,
    Holy,
    Retribution,
    BeastMastery,
    Marksmanship,
    Survival,
    Outlaw,
    Assassination,
    Subtlety,
    Discipline,
    Shadow,
    Elemental,
    Restoration,
    Enhancement,
    Arcane,
    Fire,
    Frost,
    Affliction,
    Demonology,
    Destruction,
    Brewmaster,
    Mistweaver,
    Windwalker,
    Balance,
    Feral,
    Guardian,
    Havoc,
    Vengeance,
    Blood,
    Unholy,
}

impl Spec {
    /// The text by which the service writes this specialization.
    pub open spec fn wire_name(self) -> Seq<char> {
        match self {
            Spec::Arms => "Arms"@,
            Spec::Fury => "Fury"@,
            Spec::Protection => "Protection"@,
            Spec::Holy => "Holy"@,
            Spec::Retribution => "Retribution"@,
            Spec::BeastMastery => "Beast Mastery"@,
            Spec::Marksmanship => "Marksmanship"@,
            Spec::Survival => "Survival"@,
            Spec::Outlaw => "Outlaw"@,
            Spec::Assassination => "Assassination"@,
            Spec::Subtlety => "Subtlety"@,
            Spec::Discipline => "Discipline"@,
            Spec::Shadow => "Shadow"@,
            Spec::Elemental => "Elemental"@,
            Spec::Restoration => "Restoration"@,
            Spec::Enhancement => "Enhancement"@,
            Spec::Arcane => "Arcane"@,
            Spec::Fire => "Fire"@,
            Spec::Frost => "Frost"@,
            Spec::Affliction => "Affliction"@,
            Spec::Demonology => "Demonology"@,
            Spec::Destruction => "Destruction"@,
            Spec::Brewmaster => "Brewmaster"@,
            Spec::Mistweaver => "Mistweaver"@,
            Spec::Windwalker => "Windwalker"@,
            Spec::Balance => "Balance"@,
            Spec::Feral => "Feral"@,
            Spec::Guardian => "Guardian"@,
            Spec::Havoc => "Havoc"@,
            Spec::Vengeance => "Vengeance"@,
            Spec::Blood => "Blood"@,
            Spec::Unholy => "Unholy"@,
        }
    }

    /// The specialization that `name` writes, if it writes one. Case and blanks count.
    pub open spec fn from_wire_name(name: Seq<char>) -> Option<Spec> {
        if name == "Arms"@ {
            Some(Spec::Arms)
        } else if name == "Fury"@ {
            Some(Spec::Fury)
        } else if name == "Protection"@ {
            Some(Spec::Protection)
        } else if name == "Holy"@ {
            Some(Spec::Holy)
        } else if name == "Retribution"@ {
            Some(Spec::Retribution)
        } else if name == "Beast Mastery"@ {
            Some(Spec::BeastMastery)
        } else if name == "Marksmanship"@ {
            Some(Spec::Marksmanship)
        } else if name == "Survival"@ {
            Some(Spec::Survival)
        } else if name == "Outlaw"@ {
            Some(Spec::Outlaw)
        } else if name == "Assassination"@ {
            Some(Spec::Assassination)
        } else if name == "Subtlety"@ {
            Some(Spec::Subtlety)
        } else if name == "Discipline"@ {
            Some(Spec::Discipline)
        } else if name == "Shadow"@ {
            Some(Spec::Shadow)
        } else if name == "Elemental"@ {
            Some(Spec::Elemental)
        } else if name == "Restoration"@ {
            Some(Spec::Restoration)
        } else if name == "Enhancement"@ {
            Some(Spec::Enhancement)
        } else if name == "Arcane"@ {
            Some(Spec::Arcane)
        } else if name == "Fire"@ {
            Some(Spec::Fire)
        } else if name == "Frost"@ {
            Some(Spec::Frost)
        } else if name == "Affliction"@ {
            Some(Spec::Affliction)
        } else if name == "Demonology"@ {
            Some(Spec::Demonology)
        } else if name == "Destruction"@ {
            Some(Spec::Destruction)
        } else if name == "Brewmaster"@ {
            Some(Spec::Brewmaster)
        } else if name == "Mistweaver"@ {
            Some(Spec::Mistweaver)
        } else if name == "Windwalker"@ {
            Some(Spec::Windwalker)
        } else if name == "Balance"@ {
            Some(Spec::Balance)
        } else if name == "Feral"@ {
            Some(Spec::Feral)
        } else if name == "Guardian"@ {
            Some(Spec::Guardian)
        } else if name == "Havoc"@ {
            Some(Spec::Havoc)
        } else if name == "Vengeance"@ {
            Some(Spec::Vengeance)
        } else if name == "Blood"@ {
            Some(Spec::Blood)
        } else if name == "Unholy"@ {
            Some(Spec::Unholy)
        } else {
            None
        }
    }

    /// The text by which the service writes this specialization.
    pub fn text(&self) -> (res: &'static str)
        ensures
            res@ == self.wire_name(),
    {
        match self {
            Spec::Arms => "Arms",
            Spec::Fury => "Fury",
            Spec::Protection => "Protection",
            Spec::Holy => "Holy",
            Spec::Retribution => "Retribution",
            Spec::BeastMastery => "Beast Mastery",
            Spec::Marksmanship => "Marksmanship",
            Spec::Survival => "Survival",
            Spec::Outlaw => "Outlaw",
            Spec::Assassination => "Assassination",
            Spec::Subtlety => "Subtlety",
            Spec::Discipline => "Discipline",
            Spec::Shadow => "Shadow",
            Spec::Elemental => "Elemental",
            Spec::Restoration => "Restoration",
            Spec::Enhancement => "Enhancement",
            Spec::Arcane => "Arcane",
            Spec::Fire => "Fire",
            Spec::Frost => "Frost",
            Spec::Affliction => "Affliction",
            Spec::Demonology => "Demonology",
            Spec::Destruction => "Destruction",
            Spec::Brewmaster => "Brewmaster",
            Spec::Mistweaver => "Mistweaver",
            Spec::Windwalker => "Windwalker",
            Spec::Balance => "Balance",
            Spec::Feral => "Feral",
            Spec::Guardian => "Guardian",
            Spec::Havoc => "Havoc",
            Spec::Vengeance => "Vengeance",
            Spec::Blood => "Blood",
            Spec::Unholy => "Unholy",
        }
    }

    /// Reads a specialization from the text by which the service writes it.
    pub fn from_text(name: &str) -> (res: Option<Spec>)
        ensures
            res == Spec::from_wire_name(name@),
    {
        if same_text(name, "Arms") {
            Some(Spec::Arms)
        } else if same_text(name, "Fury") {
            Some(Spec::Fury)
        } else if same_text(name, "Protection") {
            Some(Spec::Protection)
        } else if same_text(name, "Holy") {
            Some(Spec::Holy)
        } else if same_text(name, "Retribution") {
            Some(Spec::Retribution)
        } else if same_text(name, "Beast Mastery") {
            Some(Spec::BeastMastery)
        } else if same_text(name, "Marksmanship") {
            Some(Spec::Marksmanship)
        } else if same_text(name, "Survival") {
            Some(Spec::Survival)
        } else if same_text(name, "Outlaw") {
            Some(Spec::Outlaw)
        } else if same_text(name, "Assassination") {
            Some(Spec::Assassination)
        } else if same_text(name, "Subtlety") {
            Some(Spec::Subtlety)
        } else if same_text(name, "Discipline") {
            Some(Spec::Discipline)
        } else if same_text(name, "Shadow") {
            Some(Spec::Shadow)
        } else if same_text(name, "Elemental") {
            Some(Spec::Elemental)
        } else if same_text(name, "Restoration") {
            Some(Spec::Restoration)
        } else if same_text(name, "Enhancement") {
            Some(Spec::Enhancement)
        } else if same_text(name, "Arcane") {
            Some(Spec::Arcane)
        } else if same_text(name, "Fire") {
            Some(Spec::Fire)
        } else if same_text(name, "Frost") {
            Some(Spec::Frost)
        } else if same_text(name, "Affliction") {
            Some(Spec::Affliction)
        } else if same_text(name, "Demonology") {
            Some(Spec::Demonology)
        } else if same_text(name, "Destruction") {
            Some(Spec::Destruction)
        } else if same_text(name, "Brewmaster") {
            Some(Spec::Brewmaster)
        } else if same_text(name, "Mistweaver") {
            Some(Spec::Mistweaver)
        } else if same_text(name, "Windwalker") {
            Some(Spec::Windwalker)
        } else if same_text(name, "Balance") {
            Some(Spec::Balance)
        } else if same_text(name, "Feral") {
            Some(Spec::Feral)
        } else if same_text(name, "Guardian") {
            Some(Spec::Guardian)
        } else if same_text(name, "Havoc") {
            Some(Spec::Havoc)
        } else if same_text(name, "Vengeance") {
            Some(Spec::Vengeance)
        } else if same_text(name, "Blood") {
            Some(Spec::Blood)
        } else if same_text(name, "Unholy") {
            Some(Spec::Unholy)
        } else {
            None
        }
    }

    /// Every specialization is read back from its own text.
    pub proof fn lemma_wire_name_round_trip(self)
        ensures
            Spec::from_wire_name(self.wire_name()) == Some(self),
    {
        reveal_strlit("Arms");
        assert("Arms"@.len() == 4 && "Arms"@[0] == 'A' && "Arms"@[1] == 'r' && "Arms"@[2] == 'm');
        reveal_strlit("Fury");
        assert("Fury"@.len() == 4 && "Fury"@[0] == 'F' && "Fury"@[1] == 'u' && "Fury"@[2] == 'r');
        reveal_strlit("Protection");
        assert("Protection"@.len() == 10 && "Protection"@[0] == 'P' && "Protection"@[1] == 'r' && "Protection"@[2] == 'o');
        reveal_strlit("Holy");
        assert("Holy"@.len() == 4 && "Holy"@[0] == 'H' && "Holy"@[1] == 'o' && "Holy"@[2] == 'l');
        reveal_strlit("Retribution");
        assert("Retribution"@.len() == 11 && "Retribution"@[0] == 'R' && "Retribution"@[1] == 'e' && "Retribution"@[2] == 't');
        reveal_strlit("Beast Mastery");
        assert("Beast Mastery"@.len() == 13 && "Beast Mastery"@[0] == 'B' && "Beast Mastery"@[1] == 'e' && "Beast Mastery"@[2] == 'a');
        reveal_strlit("Marksmanship");
        assert("Marksmanship"@.len() == 12 && "Marksmanship"@[0] == 'M' && "Marksmanship"@[1] == 'a' && "Marksmanship"@[2] == 'r');
        reveal_strlit("Survival");
        assert("Survival"@.len() == 8 && "Survival"@[0] == 'S' && "Survival"@[1] == 'u' && "Survival"@[2] == 'r');
        reveal_strlit("Outlaw");
        assert("Outlaw"@.len() == 6 && "Outlaw"@[0] == 'O' && "Outlaw"@[1] == 'u' && "Outlaw"@[2] == 't');
        reveal_strlit("Assassination");
        assert("Assassination"@.len() == 13 && "Assassination"@[0] == 'A' && "Assassination"@[1] == 's' && "Assassination"@[2] == 's');
        reveal_strlit("Subtlety");
        assert("Subtlety"@.len() == 8 && "Subtlety"@[0] == 'S' && "Subtlety"@[1] == 'u' && "Subtlety"@[2] == 'b');
        reveal_strlit("Discipline");
        assert("Discipline"@.len() == 10 && "Discipline"@[0] == 'D' && "Discipline"@[1] == 'i' && "Discipline"@[2] == 's');
        reveal_strlit("Shadow");
        assert("Shadow"@.len() == 6 && "Shadow"@[0] == 'S' && "Shadow"@[1] == 'h' && "Shadow"@[2] == 'a');
        reveal_strlit("Elemental");
        assert("Elemental"@.len() == 9 && "Elemental"@[0] == 'E' && "Elemental"@[1] == 'l' && "Elemental"@[2] == 'e');
        reveal_strlit("Restoration");
        assert("Restoration"@.len() == 11 && "Restoration"@[0] == 'R' && "Restoration"@[1] == 'e' && "Restoration"@[2] == 's');
        reveal_strlit("Enhancement");
        assert("Enhancement"@.len() == 11 && "Enhancement"@[0] == 'E' && "Enhancement"@[1] == 'n' && "Enhancement"@[2] == 'h');
        reveal_strlit("Arcane");
        assert("Arcane"@.len() == 6 && "Arcane"@[0] == 'A' && "Arcane"@[1] == 'r' && "Arcane"@[2] == 'c');
        reveal_strlit("Fire");
        assert("Fire"@.len() == 4 && "Fire"@[0] == 'F' && "Fire"@[1] == 'i' && "Fire"@[2] == 'r');
        reveal_strlit("Frost");
        assert("Frost"@.len() == 5 && "Frost"@[0] == 'F' && "Frost"@[1] == 'r' && "Frost"@[2] == 'o');
        reveal_strlit("Affliction");
        assert("Affliction"@.len() == 10 && "Affliction"@[0] == 'A' && "Affliction"@[1] == 'f' && "Affliction"@[2] == 'f');
        reveal_strlit("Demonology");
        assert("Demonology"@.len() == 10 && "Demonology"@[0] == 'D' && "Demonology"@[1] == 'e' && "Demonology"@[2] == 'm');
        reveal_strlit("Destruction");
        assert("Destruction"@.len() == 11 && "Destruction"@[0] == 'D' && "Destruction"@[1] == 'e' && "Destruction"@[2] == 's');
        reveal_strlit("Brewmaster");
        assert("Brewmaster"@.len() == 10 && "Brewmaster"@[0] == 'B' && "Brewmaster"@[1] == 'r' && "Brewmaster"@[2] == 'e');
        reveal_strlit("Mistweaver");
        assert("Mistweaver"@.len() == 10 && "Mistweaver"@[0] == 'M' && "Mistweaver"@[1] == 'i' && "Mistweaver"@[2] == 's');
        reveal_strlit("Windwalker");
        assert("Windwalker"@.len() == 10 && "Windwalker"@[0] == 'W' && "Windwalker"@[1] == 'i' && "Windwalker"@[2] == 'n');
        reveal_strlit("Balance");
        assert("Balance"@.len() == 7 && "Balance"@[0] == 'B' && "Balance"@[1] == 'a' && "Balance"@[2] == 'l');
        reveal_strlit("Feral");
        assert("Feral"@.len() == 5 && "Feral"@[0] == 'F' && "Feral"@[1] == 'e' && "Feral"@[2] == 'r');
        reveal_strlit("Guardian");
        assert("Guardian"@.len() == 8 && "Guardian"@[0] == 'G' && "Guardian"@[1] == 'u' && "Guardian"@[2] == 'a');
        reveal_strlit("Havoc");
        assert("Havoc"@.len() == 5 && "Havoc"@[0] == 'H' && "Havoc"@[1] == 'a' && "Havoc"@[2] == 'v');
        reveal_strlit("Vengeance");
        assert("Vengeance"@.len() == 9 && "Vengeance"@[0] == 'V' && "Vengeance"@[1] == 'e' && "Vengeance"@[2] == 'n');
        reveal_strlit("Blood");
        assert("Blood"@.len() == 5 && "Blood"@[0] == 'B' && "Blood"@[1] == 'l' && "Blood"@[2] == 'o');
        reveal_strlit("Unholy");
        assert("Unholy"@.len() == 6 && "Unholy"@[0] == 'U' && "Unholy"@[1] == 'n' && "Unholy"@[2] == 'h');
    }

    /// A text is read as a specialization only if it is that specialization's own text.
    pub proof fn lemma_wire_name_unique(name: Seq<char>, value: Spec)
        requires
            Spec::from_wire_name(name) == Some(value),
        ensures
            value.wire_name() == name,
    {
    }
}

/// The part that a specialization plays in a group.
#[derive(Clone, Copy, Debug, PartialEq, Eq, Hash, Structural)]
pub enum Role {
    /// Deals damage.
    DPS,
    /// Takes the enemy's blows.
    Tank,
    /// Heals the group.
    Healing,
}

impl Role {
    /// The text by which the service writes this role.
    pub open spec fn wire_name(self) -> Seq<char> {
        match self {
            Role::DPS => "DPS"@,
            Role::Tank => "TANK"@,
            Role::Healing => "HEALING"@,
        }
    }

    /// The role that `name` writes, if it writes one. Case and blanks count.
    pub open spec fn from_wire_name(name: Seq<char>) -> Option<Role> {
        if name == "DPS"@ {
            Some(Role::DPS)
        } else if name == "TANK"@ {
            Some(Role::Tank)
        } else if name == "HEALING"@ {
            Some(Role::Healing)
        } else {
            None
        }
    }

    /// The text by which the service writes this role.
    pub fn text(&self) -> (res: &'static str)
        ensures
            res@ == self.wire_name(),
    {
        match self {
            Role::DPS => "DPS",
            Role::Tank => "TANK",
            Role::Healing => "HEALING",
        }
    }

    /// Reads a role from the text by which the service writes it.
    pub fn from_text(name: &str) -> (res: Option<Role>)
        ensures
            res == Role::from_wire_name(name@),
    {
        if same_text(name, "DPS") {
            Some(Role::DPS)
        } else if same_text(name, "TANK") {
            Some(Role::Tank)
        } else if same_text(name, "HEALING") {
            Some(Role::Healing)
        } else {
            None
        }
    }

    /// Every role is read back from its own text.
    pub proof fn lemma_wire_name_round_trip(self)
        ensures
            Role::from_wire_name(self.wire_name()) == Some(self),
    {
        reveal_strlit("DPS");
        assert("DPS"@.len() == 3);
        reveal_strlit("TANK");
        assert("TANK"@.len() == 4);
        reveal_strlit("HEALING");
        assert("HEALING"@.len() == 7);
    }

    /// A text is read as a role only if it is that role's own text.
    pub proof fn lemma_wire_name_unique(name: Seq<char>, value: Role)
        requires
            Role::from_wire_name(name) == Some(value),
        ensures
            value.wire_name() == name,
    {
    }
}

} // verus!
