//! Mythic-plus seasons, rankings, scores and keystone runs.

use crate::number::SingleBits;
use crate::region::Expansion;
use crate::text::{
    decimal, decimal_text, is_digit, lemma_concat_without, lemma_decimal_digits, lemma_decimal_round_trip,
    lemma_split_at_separator, lemma_split_plain, parse_u8, parsed_u8, same_text, split, split_on,
    views,
};
use vstd::prelude::*;
use vstd::string::*;

verus! {

/// A competitive period of mythic-plus play.
#[derive(Clone, Copy, Debug, Hash, PartialEq, Eq, Structural)]
pub enum Season {
    /// The season before the running one.
    Previous,
    /// The running season.
    Current,
    /// A numbered season of an expansion.
    Specific {
        /// The expansion that the season belongs to.
        expansion: Expansion,
        /// The season's number within the expansion.
        number: u8,
    },
}

impl Season {
    /// The suffix that asks the service for this season's scores: `:previous`,
    /// `:current`, or `:season-`, the expansion's code, `-` and the number in
    /// decimal.
    pub open spec fn selector(self) -> Seq<char> {
        match self {
            Season::Previous => ":previous"@,
            Season::Current => ":current"@,
            Season::Specific { expansion, number } => ":season-"@ + expansion.wire_name() + "-"@
                + decimal(number as nat),
        }
    }

    /// What a season identifier reads as. The identifier is cut at every `-`;
    /// the first piece is a prefix that is not looked at, the second names the
    /// expansion, the third is the season's number, and further pieces are not
    /// looked at. A failure carries the message that says what was wrong.
    pub open spec fn parsed(s: Seq<char>) -> Result<Season, Seq<char>> {
        let parts = split(s, '-');
        if parts.len() < 2 {
            Err("no expansion"@)
        } else {
            match Expansion::from_wire_name(parts[1]) {
                None => Err("unknown expansion"@),
                Some(expansion) => if parts.len() < 3 {
                    Err("no season number"@)
                } else {
                    match parsed_u8(parts[2]) {
                        None => Err("invalid number"@),
                        Some(number) => Ok(Season::Specific { expansion, number }),
                    }
                },
            }
        }
    }

    /// The suffix that asks the service for this season's scores.
    pub fn selector_text(&self) -> (res: String)
        ensures
            res@ == self.selector(),
    {
        match self {
            Season::Previous => String::from_str(":previous"),
            Season::Current => String::from_str(":current"),
            Season::Specific { expansion, number } => {
                let mut out = String::from_str(":season-");
                out.append(expansion.text());
                out.append("-");
                let digits = decimal_text(*number);
                out.append(digits.as_str());
                out
            },
        }
    }

    /// Reads a numbered season from an identifier of the form
    /// `<prefix>-<expansion code>-<number>`.
    pub fn parse(s: &str) -> (res: Result<Season, &'static str>)
        ensures
            match res {
                Ok(season) => Season::parsed(s@) == Ok::<Season, Seq<char>>(season),
                Err(message) => Season::parsed(s@) == Err::<Season, Seq<char>>(message@),
            },
    {
        let parts = split_on(s, '-');
        assert(parts@.len() == split(s@, '-').len());
        if parts.len() < 2 {
            return Err("no expansion");
        }
        assert(parts@[1]@ == views(parts@)[1]);
        let expansion = match Expansion::from_text(parts[1]) {
            None => {
                return Err("unknown expansion");
            },
            Some(expansion) => expansion,
        };
        if parts.len() < 3 {
            return Err("no season number");
        }
        assert(parts@[2]@ == views(parts@)[2]);
        match parse_u8(parts[2]) {
            None => Err("invalid number"),
            Some(number) => Ok(Season::Specific { expansion, number }),
        }
    }

    /// An identifier made of a prefix without `-`, an expansion's code and a
    /// number in decimal, with `-` between them, reads as that numbered season.
    pub proof fn lemma_identifier_parses(prefix: Seq<char>, expansion: Expansion, number: u8)
        requires
            !prefix.contains('-'),
        ensures
            Season::parsed(prefix + "-"@ + expansion.wire_name() + "-"@ + decimal(number as nat))
                == Ok::<Season, Seq<char>>(Season::Specific { expansion, number }),
    {
        let code = expansion.wire_name();
        let digits = decimal(number as nat);
        let dash = seq!['-'];
        reveal_strlit("-");
        assert("-"@ =~= dash);
        reveal_strlit("bfa");
        assert(!code.contains('-')) by {
            assert(code.len() == 3 && code[0] == 'b' && code[1] == 'f' && code[2] == 'a');
        }
        lemma_decimal_digits(number as nat);
        assert(!digits.contains('-')) by {
            assert forall|i: int| 0 <= i < digits.len() implies digits[i] != '-' by {
                assert(is_digit(digits[i]));
            }
        }
        lemma_split_plain(prefix, '-');
        lemma_split_plain(code, '-');
        lemma_split_plain(digits, '-');
        lemma_split_at_separator(prefix, code, '-');
        lemma_split_at_separator(prefix + dash + code, digits, '-');
        let parts = split(prefix + dash + code + dash + digits, '-');
        assert(parts =~= seq![prefix, code, digits]);
        expansion.lemma_wire_name_round_trip();
        lemma_decimal_round_trip(number);
    }

    /// No selector is empty or holds a comma.
    pub proof fn lemma_selector_plain(self)
        ensures
            self.selector().len() > 0,
            !self.selector().contains(','),
    {
        reveal_strlit(":previous");
        reveal_strlit(":current");
        reveal_strlit(":season-");
        reveal_strlit("-");
        reveal_strlit("bfa");
        match self {
            Season::Previous => {},
            Season::Current => {},
            Season::Specific { expansion, number } => {
                let digits = decimal(number as nat);
                lemma_decimal_digits(number as nat);
                assert(!digits.contains(',')) by {
                    assert forall|i: int| 0 <= i < digits.len() implies digits[i] != ',' by {
                        assert(is_digit(digits[i]));
                    }
                }
                lemma_concat_without(":season-"@, expansion.wire_name(), ',');
                lemma_concat_without(":season-"@ + expansion.wire_name(), "-"@, ',');
                lemma_concat_without(":season-"@ + expansion.wire_name() + "-"@, digits, ',');
            },
        }
    }

    /// The selector of a numbered season reads back as that season.
    pub proof fn lemma_selector_round_trip(expansion: Expansion, number: u8)
        ensures
            Season::parsed((Season::Specific { expansion, number }).selector()) == Ok::<
                Season,
                Seq<char>,
            >(Season::Specific { expansion, number }),
    {
        reveal_strlit(":season-");
        reveal_strlit("-");
        let prefix = seq![':', 's', 'e', 'a', 's', 'o', 'n'];
        assert(":season-"@ =~= prefix + "-"@);
        assert(!prefix.contains('-'));
        Season::lemma_identifier_parses(prefix, expansion, number);
    }
}

impl std::str::FromStr for Season {
    type Err = &'static str;

    /// Reads a numbered season from an identifier of the form
    /// `<prefix>-<expansion code>-<number>`, as `Season::parse` does.
    fn from_str(s: &str) -> (res: Result<Season, &'static str>)
        ensures
            match res {
                Ok(season) => Season::parsed(s@) == Ok::<Season, Seq<char>>(season),
                Err(message) => Season::parsed(s@) == Err::<Season, Seq<char>>(message@),
            },
    {
        Season::parse(s)
    }
}

/// How many of a season's best runs are asked for.
#[derive(Clone, Copy, Debug, Hash, PartialEq, Eq, Structural)]
pub enum SeasonBestRuns {
    /// Every best run of the season.
    All,
    /// The three runs with the highest score.
    Three,
}

/// A place in the rankings of the world, of a region and of a realm.
#[derive(Clone, Copy, Debug, PartialEq, Eq)]
pub struct Ranking {
    /// The place among all characters.
    pub world: u64,
    /// The place among the characters of the region.
    pub region: u64,
    /// The place among the characters of the realm.
    pub realm: u64,
}

/// A character's places in the mythic-plus rankings.
#[derive(Clone, Copy, Debug, PartialEq, Eq)]
pub struct MythicPlusRanks {
    /// Among all characters.
    pub overall: Ranking,
    /// Among the characters of the faction.
    pub faction_overall: Ranking,
    /// Among the characters of the class.
    pub class: Ranking,
    /// Among the characters of the class and the faction.
    pub faction_class: Ranking,
    /// Among the damage dealers.
    pub dps: Option<Ranking>,
    /// Among the damage dealers of the faction.
    pub faction_dps: Option<Ranking>,
    /// Among the damage dealers of the class.
    pub class_dps: Option<Ranking>,
    /// Among the damage dealers of the class and the faction.
    pub faction_class_dps: Option<Ranking>,
    /// Among the tanks.
    pub tank: Option<Ranking>,
    /// Among the tanks of the faction.
    pub faction_tank: Option<Ranking>,
    /// Among the tanks of the class.
    pub class_tank: Option<Ranking>,
    /// Among the tanks of the class and the faction.
    pub faction_class_tank: Option<Ranking>,
    /// Among the healers.
    pub healer: Option<Ranking>,
    /// Among the healers of the faction.
    pub faction_healer: Option<Ranking>,
    /// Among the healers of the class.
    pub class_healer: Option<Ranking>,
    /// Among the healers of the class and the faction.
    pub faction_class_healer: Option<Ranking>,
}

/// A character's scores in one season.
#[derive(Clone, Copy, Debug, PartialEq, Eq)]
pub struct MythicPlusScores {
    /// The season.
    pub season: Season,
    /// The scores.
    pub scores: Scores,
}

/// Mythic-plus scores, overall and by role and specialization.
#[derive(Clone, Copy, Debug, PartialEq, Eq)]
pub struct Scores {
    /// The overall score.
    pub all: SingleBits,
    /// The score as a damage dealer.
    pub dps: SingleBits,
    /// The score as a healer.
    pub healer: SingleBits,
    /// The score as a tank.
    pub tank: SingleBits,
    /// The score in the class's first specialization.
    pub spec_0: SingleBits,
    /// The score in the class's second specialization.
    pub spec_1: SingleBits,
    /// The score in the class's third specialization.
    pub spec_2: SingleBits,
    /// The score in the class's fourth specialization.
    pub spec_3: SingleBits,
}

/// A mythic-plus dungeon.
#[derive(Clone, Copy, Debug, PartialEq, Eq, Hash, Structural)]
pub enum Dungeon {
    MechagonWorkshop,
    MechagonJunkyard,
    KingsRest,
    Freehold,
    TempleOfSethraliss,
    TolDagor,
    TheUnderrot,
    ShrineOfTheStorm,
    AtalDazar,
    TheMotherlode,
    SiegeOfBoralus,
    WaycrestManor,
}

impl Dungeon {
    /// The text by which the service writes this dungeon.
    pub open spec fn wire_name(self) -> Seq<char> {
        match self {
            Dungeon::MechagonWorkshop => "Mechagon Workshop"@,
            Dungeon::MechagonJunkyard => "Mechagon Junkyard"@,
            Dungeon::KingsRest => "Kings' Rest"@,
            Dungeon::Freehold => "Freehold"@,
            Dungeon::TempleOfSethraliss => "Temple of Sethraliss"@,
            Dungeon::TolDagor => "Tol Dagor"@,
            Dungeon::TheUnderrot => "The Underrot"@,
            Dungeon::ShrineOfTheStorm => "Shrine of the Storm"@,
            Dungeon::AtalDazar => "Atal'dazar"@,
            Dungeon::TheMotherlode => "The MOTHERLODE!!"@,
            Dungeon::SiegeOfBoralus => "Siege of Boralus"@,
            Dungeon::WaycrestManor => "Waycrest Manor"@,
        }
    }

    /// The dungeon that `name` writes, if it writes one. Case and blanks count.
    pub open spec fn from_wire_name(name: Seq<char>) -> Option<Dungeon> {
        if name == "Mechagon Workshop"@ {
            Some(Dungeon::MechagonWorkshop)
        } else if name == "Mechagon Junkyard"@ {
            Some(Dungeon::MechagonJunkyard)
        } else if name == "Kings' Rest"@ {
            Some(Dungeon::KingsRest)
        } else if name == "Freehold"@ {
            Some(Dungeon::Freehold)
        } else if name == "Temple of Sethraliss"@ {
            Some(Dungeon::TempleOfSethraliss)
        } else if name == "Tol Dagor"@ {
            Some(Dungeon::TolDagor)
        } else if name == "The Underrot"@ {
            Some(Dungeon::TheUnderrot)
        } else if name == "Shrine of the Storm"@ {
            Some(Dungeon::ShrineOfTheStorm)
        } else if name == "Atal'dazar"@ {
            Some(Dungeon::AtalDazar)
        } else if name == "The MOTHERLODE!!"@ {
            Some(Dungeon::TheMotherlode)
        } else if name == "Siege of Boralus"@ {
            Some(Dungeon::SiegeOfBoralus)
        } else if name == "Waycrest Manor"@ {
            Some(Dungeon::WaycrestManor)
        } else {
            None
        }
    }

    /// The text by which the service writes this dungeon.
    pub fn text(&self) -> (res: &'static str)
        ensures
            res@ == self.wire_name(),
    {
        match self {
            Dungeon::MechagonWorkshop => "Mechagon Workshop",
            Dungeon::MechagonJunkyard => "Mechagon Junkyard",
            Dungeon::KingsRest => "Kings' Rest",
            Dungeon::Freehold => "Freehold",
            Dungeon::TempleOfSethraliss => "Temple of Sethraliss",
            Dungeon::TolDagor => "Tol Dagor",
            Dungeon::TheUnderrot => "The Underrot",
            Dungeon::ShrineOfTheStorm => "Shrine of the Storm",
            Dungeon::AtalDazar => "Atal'dazar",
            Dungeon::TheMotherlode => "The MOTHERLODE!!",
            Dungeon::SiegeOfBoralus => "Siege of Boralus",
            Dungeon::WaycrestManor => "Waycrest Manor",
        }
    }

    /// Reads a dungeon from the text by which the service writes it.
    pub fn from_text(name: &str) -> (res: Option<Dungeon>)
        ensures
            res == Dungeon::from_wire_name(name@),
    {
        if same_text(name, "Mechagon Workshop") {
            Some(Dungeon::MechagonWorkshop)
        } else if same_text(name, "Mechagon Junkyard") {
            Some(Dungeon::MechagonJunkyard)
        } else if same_text(name, "Kings' Rest") {
            Some(Dungeon::KingsRest)
        } else if same_text(name, "Freehold") {
            Some(Dungeon::Freehold)
        } else if same_text(name, "Temple of Sethraliss") {
            Some(Dungeon::TempleOfSethraliss)
        } else if same_text(name, "Tol Dagor") {
            Some(Dungeon::TolDagor)
        } else if same_text(name, "The Underrot") {
            Some(Dungeon::TheUnderrot)
        } else if same_text(name, "Shrine of the Storm") {
            Some(Dungeon::ShrineOfTheStorm)
        } else if same_text(name, "Atal'dazar") {
            Some(Dungeon::AtalDazar)
        } else if same_text(name, "The MOTHERLODE!!") {
            Some(Dungeon::TheMotherlode)
        } else if same_text(name, "Siege of Boralus") {
            Some(Dungeon::SiegeOfBoralus)
        } else if same_text(name, "Waycrest Manor") {
            Some(Dungeon::WaycrestManor)
        } else {
            None
        }
    }

    /// Every dungeon is read back from its own text.
    pub proof fn lemma_wire_name_round_trip(self)
        ensures
            Dungeon::from_wire_name(self.wire_name()) == Some(self),
    {
        reveal_strlit("Mechagon Workshop");
        assert("Mechagon Workshop"@.len() == 17 && "Mechagon Workshop"@[9] == 'W');
        reveal_strlit("Mechagon Junkyard");
        assert("Mechagon Junkyard"@.len() == 17 && "Mechagon Junkyard"@[9] == 'J');
        reveal_strlit("Kings' Rest");
        assert("Kings' Rest"@.len() == 11 && "Kings' Rest"@[9] == 's');
        reveal_strlit("Freehold");
        assert("Freehold"@.len() == 8);
        reveal_strlit("Temple of Sethraliss");
        assert("Temple of Sethraliss"@.len() == 20 && "Temple of Sethraliss"@[9] == ' ');
        reveal_strlit("Tol Dagor");
        assert("Tol Dagor"@.len() == 9);
        reveal_strlit("The Underrot");
        assert("The Underrot"@.len() == 12 && "The Underrot"@[9] == 'r');
        reveal_strlit("Shrine of the Storm");
        assert("Shrine of the Storm"@.len() == 19 && "Shrine of the Storm"@[9] == ' ');
        reveal_strlit("Atal'dazar");
        assert("Atal'dazar"@.len() == 10 && "Atal'dazar"@[9] == 'r');
        reveal_strlit("The MOTHERLODE!!");
        assert("The MOTHERLODE!!"@.len() == 16 && "The MOTHERLODE!!"@[9] == 'R');
        reveal_strlit("Siege of Boralus");
        assert("Siege of Boralus"@.len() == 16 && "Siege of Boralus"@[9] == 'B');
        reveal_strlit("Waycrest Manor");
        assert("Waycrest Manor"@.len() == 14 && "Waycrest Manor"@[9] == 'M');
    }

    /// A text is read as a dungeon only if it is that dungeon's own text.
    pub proof fn lemma_wire_name_unique(name: Seq<char>, value: Dungeon)
        requires
            Dungeon::from_wire_name(name) == Some(value),
        ensures
            value.wire_name() == name,
    {
    }
}

/// A modifier that makes a dungeon harder for a week.
#[derive(Clone, Copy, Debug, PartialEq, Eq, Hash, Structural)]
pub enum AffixName {
    Fortified,
    Tyrannical,
    Bolstering,
    Raging,
    Sanguine,
    Teeming,
    Bursting,
    Necrotic,
    Skittish,
    Volcanic,
    Explosive,
    Quaking,
    Grievous,
    Infested,
    Reaping,
    Beguiling,
    Awakened,
}

impl AffixName {
    /// The text by which the service writes this affix.
    pub open spec fn wire_name(self) -> Seq<char> {
        match self {
            AffixName::Fortified => "Fortified"@,
            AffixName::Tyrannical => "Tyrannical"@,
            AffixName::Bolstering => "Bolstering"@,
            AffixName::Raging => "Raging"@,
            AffixName::Sanguine => "Sanguine"@,
            AffixName::Teeming => "Teeming"@,
            AffixName::Bursting => "Bursting"@,
            AffixName::Necrotic => "Necrotic"@,
            AffixName::Skittish => "Skittish"@,
            AffixName::Volcanic => "Volcanic"@,
            AffixName::Explosive => "Explosive"@,
            AffixName::Quaking => "Quaking"@,
            AffixName::Grievous => "Grievous"@,
            AffixName::Infested => "Infested"@,
            AffixName::Reaping => "Reaping"@,
            AffixName::Beguiling => "Beguiling"@,
            AffixName::Awakened => "Awakened"@,
        }
    }

    /// The affix that `name` writes, if it writes one. Case and blanks count.
    pub open spec fn from_wire_name(name: Seq<char>) -> Option<AffixName> {
        if name == "Fortified"@ {
            Some(AffixName::Fortified)
        } else if name == "Tyrannical"@ {
            Some(AffixName::Tyrannical)
        } else if name == "Bolstering"@ {
            Some(AffixName::Bolstering)
        } else if name == "Raging"@ {
            Some(AffixName::Raging)
        } else if name == "Sanguine"@ {
            Some(AffixName::Sanguine)
        } else if name == "Teeming"@ {
            Some(AffixName::Teeming)
        } else if name == "Bursting"@ {
            Some(AffixName::Bursting)
        } else if name == "Necrotic"@ {
            Some(AffixName::Necrotic)
        } else if name == "Skittish"@ {
            Some(AffixName::Skittish)
        } else if name == "Volcanic"@ {
            Some(AffixName::Volcanic)
        } else if name == "Explosive"@ {
            Some(AffixName::Explosive)
        } else if name == "Quaking"@ {
            Some(AffixName::Quaking)
        } else if name == "Grievous"@ {
            Some(AffixName::Grievous)
        } else if name == "Infested"@ {
            Some(AffixName::Infested)
        } else if name == "Reaping"@ {
            Some(AffixName::Reaping)
        } else if name == "Beguiling"@ {
            Some(AffixName::Beguiling)
        } else if name == "Awakened"@ {
            Some(AffixName::Awakened)
        } else {
            None
        }
    }

    /// The text by which the service writes this affix.
    pub fn text(&self) -> (res: &'static str)
        ensures
            res@ == self.wire_name(),
    {
        match self {
            AffixName::Fortified => "Fortified",
            AffixName::Tyrannical => "Tyrannical",
            AffixName::Bolstering => "Bolstering",
            AffixName::Raging => "Raging",
            AffixName::Sanguine => "Sanguine",
            AffixName::Teeming => "Teeming",
            AffixName::Bursting => "Bursting",
            AffixName::Necrotic => "Necrotic",
            AffixName::Skittish => "Skittish",
            AffixName::Volcanic => "Volcanic",
            AffixName::Explosive => "Explosive",
            AffixName::Quaking => "Quaking",
            AffixName::Grievous => "Grievous",
            AffixName::Infested => "Infested",
            AffixName::Reaping => "Reaping",
            AffixName::Beguiling => "Beguiling",
            AffixName::Awakened => "Awakened",
        }
    }

    /// Reads a affix from the text by which the service writes it.
    pub fn from_text(name: &str) -> (res: Option<AffixName>)
        ensures
            res == AffixName::from_wire_name(name@),
    {
        if same_text(name, "Fortified") {
            Some(AffixName::Fortified)
        } else if same_text(name, "Tyrannical") {
            Some(AffixName::Tyrannical)
        } else if same_text(name, "Bolstering") {
            Some(AffixName::Bolstering)
        } else if same_text(name, "Raging") {
            Some(AffixName::Raging)
        } else if same_text(name, "Sanguine") {
            Some(AffixName::Sanguine)
        } else if same_text(name, "Teeming") {
            Some(AffixName::Teeming)
        } else if same_text(name, "Bursting") {
            Some(AffixName::Bursting)
        } else if same_text(name, "Necrotic") {
            Some(AffixName::Necrotic)
        } else if same_text(name, "Skittish") {
            Some(AffixName::Skittish)
        } else if same_text(name, "Volcanic") {
            Some(AffixName::Volcanic)
        } else if same_text(name, "Explosive") {
            Some(AffixName::Explosive)
        } else if same_text(name, "Quaking") {
            Some(AffixName::Quaking)
        } else if same_text(name, "Grievous") {
            Some(AffixName::Grievous)
        } else if same_text(name, "Infested") {
            Some(AffixName::Infested)
        } else if same_text(name, "Reaping") {
            Some(AffixName::Reaping)
        } else if same_text(name, "Beguiling") {
            Some(AffixName::Beguiling)
        } else if same_text(name, "Awakened") {
            Some(AffixName::Awakened)
        } else {
            None
        }
    }

    /// Every affix is read back from its own text.
    pub proof fn lemma_wire_name_round_trip(self)
        ensures
            AffixName::from_wire_name(self.wire_name()) == Some(self),
    {
        reveal_strlit("Fortified");
        assert("Fortified"@.len() == 9 && "Fortified"@[0] == 'F' && "Fortified"@[1] == 'o');
        reveal_strlit("Tyrannical");
        assert("Tyrannical"@.len() == 10 && "Tyrannical"@[0] == 'T' && "Tyrannical"@[1] == 'y');
        reveal_strlit("Bolstering");
        assert("Bolstering"@.len() == 10 && "Bolstering"@[0] == 'B' && "Bolstering"@[1] == 'o');
        reveal_strlit("Raging");
        assert("Raging"@.len() == 6 && "Raging"@[0] == 'R' && "Raging"@[1] == 'a');
        reveal_strlit("Sanguine");
        assert("Sanguine"@.len() == 8 && "Sanguine"@[0] == 'S' && "Sanguine"@[1] == 'a');
        reveal_strlit("Teeming");
        assert("Teeming"@.len() == 7 && "Teeming"@[0] == 'T' && "Teeming"@[1] == 'e');
        reveal_strlit("Bursting");
        assert("Bursting"@.len() == 8 && "Bursting"@[0] == 'B' && "Bursting"@[1] == 'u');
        reveal_strlit("Necrotic");
        assert("Necrotic"@.len() == 8 && "Necrotic"@[0] == 'N' && "Necrotic"@[1] == 'e');
        reveal_strlit("Skittish");
        assert("Skittish"@.len() == 8 && "Skittish"@[0] == 'S' && "Skittish"@[1] == 'k');
        reveal_strlit("Volcanic");
        assert("Volcanic"@.len() == 8 && "Volcanic"@[0] == 'V' && "Volcanic"@[1] == 'o');
        reveal_strlit("Explosive");
        assert("Explosive"@.len() == 9 && "Explosive"@[0] == 'E' && "Explosive"@[1] == 'x');
        reveal_strlit("Quaking");
        assert("Quaking"@.len() == 7 && "Quaking"@[0] == 'Q' && "Quaking"@[1] == 'u');
        reveal_strlit("Grievous");
        assert("Grievous"@.len() == 8 && "Grievous"@[0] == 'G' && "Grievous"@[1] == 'r');
        reveal_strlit("Infested");
        assert("Infested"@.len() == 8 && "Infested"@[0] == 'I' && "Infested"@[1] == 'n');
        reveal_strlit("Reaping");
        assert("Reaping"@.len() == 7 && "Reaping"@[0] == 'R' && "Reaping"@[1] == 'e');
        reveal_strlit("Beguiling");
        assert("Beguiling"@.len() == 9 && "Beguiling"@[0] == 'B' && "Beguiling"@[1] == 'e');
        reveal_strlit("Awakened");
        assert("Awakened"@.len() == 8 && "Awakened"@[0] == 'A' && "Awakened"@[1] == 'w');
    }

    /// A text is read as a affix only if it is that affix's own text.
    pub proof fn lemma_wire_name_unique(name: Seq<char>, value: AffixName)
        requires
            AffixName::from_wire_name(name) == Some(value),
        ensures
            value.wire_name() == name,
    {
    }
}

/// An affix with its description.
#[derive(Clone, Debug, PartialEq, Eq)]
pub struct Affix {
    /// The game's number for the affix.
    pub id: u64,
    /// Which affix it is.
    pub name: AffixName,
    /// What the affix does, in words.
    pub description: String,
    /// Where to read more about it.
    pub wowhead_url: String,
}

/// A moment in time, counted from the start of 1970 in universal time.
#[derive(Clone, Copy, Debug, PartialEq, Eq, Hash, Structural)]
pub struct Timestamp {
    /// The whole seconds since then.
    pub seconds: i64,
    /// The billionths of a second behind the last whole second.
    pub nanoseconds: u32,
}

/// One completed run of a mythic-plus dungeon.
#[derive(Clone, Debug, PartialEq, Eq)]
pub struct KeystoneRun {
    /// The dungeon.
    pub dungeon: Dungeon,
    /// The level of the keystone.
    pub mythic_level: u8,
    /// When the run was completed.
    pub completed_at: Timestamp,
    /// How long the run took, in milliseconds.
    pub clear_time_ms: u64,
    /// By how many levels the keystone was upgraded.
    pub num_keystone_upgrades: u8,
    /// The game's number for the dungeon's challenge mode.
    pub map_challenge_mode_id: u64,
    /// The score that the run is worth.
    pub score: SingleBits,
    /// The affixes that were active.
    pub affixes: Vec<Affix>,
}

} // verus!
