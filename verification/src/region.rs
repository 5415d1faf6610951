//! The regions and game expansions that the service knows.

use crate::text::same_text;
use vstd::prelude::*;

verus! {

/// A region of the game's servers.
#[derive(Clone, Copy, Debug, PartialEq, Eq, Hash, Structural)]
pub enum Region {
    /// The Americas and Oceania.
    UnitedStates,
    /// Europe.
    Europe,
    /// Korea.
    Korea,
    /// Taiwan.
    Taiwan,
}

impl Region {
    /// The text by which the service writes this region.
    pub open spec fn wire_name(self) -> Seq<char> {
        match self {
            Region::UnitedStates => "us"@,
            Region::Europe => "eu"@,
            Region::Korea => "kr"@,
            Region::Taiwan => "tw"@,
        }
    }

    /// The region that `name` writes, if it writes one. Case and blanks count.
    pub open spec fn from_wire_name(name: Seq<char>) -> Option<Region> {
        if name == "us"@ {
            Some(Region::UnitedStates)
        } else if name == "eu"@ {
            Some(Region::Europe)
        } else if name == "kr"@ {
            Some(Region::Korea)
        } else if name == "tw"@ {
            Some(Region::Taiwan)
        } else {
            None
        }
    }

    /// The text by which the service writes this region.
    pub fn text(&self) -> (res: &'static str)
        ensures
            res@ == self.wire_name(),
    {
        match self {
            Region::UnitedStates => "us",
            Region::Europe => "eu",
            Region::Korea => "kr",
            Region::Taiwan => "tw",
        }
    }

    /// Reads a region from the text by which the service writes it.
    pub fn from_text(name: &str) -> (res: Option<Region>)
        ensures
            res == Region::from_wire_name(name@),
    {
        if same_text(name, "us") {
            Some(Region::UnitedStates)
        } else if same_text(name, "eu") {
            Some(Region::Europe)
        } else if same_text(name, "kr") {
            Some(Region::Korea)
        } else if same_text(name, "tw") {
            Some(Region::Taiwan)
        } else {
            None
        }
    }

    /// Every region is read back from its own text.
    pub proof fn lemma_wire_name_round_trip(self)
        ensures
            Region::from_wire_name(self.wire_name()) == Some(self),
    {
        reveal_strlit("us");
        assert("us"@.len() == 2 && "us"@[0] == 'u');
        reveal_strlit("eu");
        assert("eu"@.len() == 2 && "eu"@[0] == 'e');
        reveal_strlit("kr");
        assert("kr"@.len() == 2 && "kr"@[0] == 'k');
        reveal_strlit("tw");
        assert("tw"@.len() == 2 && "tw"@[0] == 't');
    }

    /// A text is read as a region only if it is that region's own text.
    pub proof fn lemma_wire_name_unique(name: Seq<char>, value: Region)
        requires
            Region::from_wire_name(name) == Some(value),
        ensures
            value.wire_name() == name,
    {
    }
}

/// An expansion of the game.
#[derive(Clone, Copy, Debug, PartialEq, Eq, Hash, Structural)]
pub enum Expansion {
    /// Battle for Azeroth.
    BattleForAzeroth,
}

impl Expansion {
    /// The text by which the service writes this expansion.
    pub open spec fn wire_name(self) -> Seq<char> {
        match self {
            Expansion::BattleForAzeroth => "bfa"@,
        }
    }

    /// The expansion that `name` writes, if it writes one. Case and blanks count.
    pub open spec fn from_wire_name(name: Seq<char>) -> Option<Expansion> {
        if name == "bfa"@ {
            Some(Expansion::BattleForAzeroth)
        } else {
            None
        }
    }

    /// The text by which the service writes this expansion.
    pub fn text(&self) -> (res: &'static str)
        ensures
            res@ == self.wire_name(),
    {
        match self {
            Expansion::BattleForAzeroth => "bfa",
        }
    }

    /// Reads a expansion from the text by which the service writes it.
    pub fn from_text(name: &str) -> (res: Option<Expansion>)
        ensures
            res == Expansion::from_wire_name(name@),
    {
        if same_text(name, "bfa") {
            Some(Expansion::BattleForAzeroth)
        } else {
            None
        }
    }

    /// Every expansion is read back from its own text.
    pub proof fn lemma_wire_name_round_trip(self)
        ensures
            Expansion::from_wire_name(self.wire_name()) == Some(self),
    {
        reveal_strlit("bfa");
        assert("bfa"@.len() == 3);
    }

    /// A text is read as a expansion only if it is that expansion's own text.
    pub proof fn lemma_wire_name_unique(name: Seq<char>, value: Expansion)
        requires
            Expansion::from_wire_name(name) == Some(value),
        ensures
            value.wire_name() == name,
    {
    }
}

} // verus!
