//! The request for a character's profile: which optional fields it asks for,
//! how that selection is written into the `fields` query parameter, and the
//! query that goes to the service.

use crate::mythic_plus::{Season, SeasonBestRuns};
use crate::region::Region;
use crate::response::Error;
use crate::text::{
    join_with, joined, lemma_concat_without, lemma_joined_edges, lemma_split_joined, split,
};
use vstd::prelude::*;
use vstd::string::*;

verus! {

/// The number of places in the fixed order in which selected fields are written.
pub const SLOTS: u8 = 11;

/// What a request selects, as a mathematical value.
pub struct Selection {
    /// Item information of the character.
    pub gear: bool,
    /// The guild that the character is in.
    pub guild: bool,
    /// Raid progression.
    pub raid_progression: bool,
    /// The seasons whose scores are asked for, in the order in which they were
    /// first selected, or `None` if scores by season are not asked for.
    pub seasons: Option<Seq<Season>>,
    /// Rankings of the running season.
    pub ranks: bool,
    /// The most recent runs.
    pub recent_runs: bool,
    /// How many best runs are asked for, if any.
    pub best_runs: Option<SeasonBestRuns>,
    /// The runs of the highest level.
    pub highest_runs: bool,
    /// The runs of the highest level of the running week.
    pub weekly_highest_runs: bool,
    /// The runs of the highest level of the week before.
    pub previous_weekly_highest_runs: bool,
    /// Rankings of the season before.
    pub previous_ranks: bool,
}

/// The token of a field that is selected or not: its name if it is selected.
pub open spec fn flag(selected: bool, name: Seq<char>) -> Option<Seq<char>> {
    if selected {
        Some(name)
    } else {
        None
    }
}

/// The selectors of `seasons`, one after the other.
pub open spec fn selectors(seasons: Seq<Season>) -> Seq<char>
    decreases seasons.len(),
{
    if seasons.len() == 0 {
        Seq::<char>::empty()
    } else {
        selectors(seasons.drop_last()) + seasons.last().selector()
    }
}

impl Selection {
    /// The selection that asks for nothing.
    pub open spec fn nothing() -> Selection {
        Selection {
            gear: false,
            guild: false,
            raid_progression: false,
            seasons: None,
            ranks: false,
            recent_runs: false,
            best_runs: None,
            highest_runs: false,
            weekly_highest_runs: false,
            previous_weekly_highest_runs: false,
            previous_ranks: false,
        }
    }

    /// This selection with `season` among its seasons: added behind the others
    /// if it is new, nothing changed if it is there already.
    pub open spec fn with_season(self, season: Season) -> Selection {
        let seasons = match self.seasons {
            None => seq![season],
            Some(seasons) => if seasons.contains(season) {
                seasons
            } else {
                seasons.push(season)
            },
        };
        Selection { seasons: Some(seasons), ..self }
    }

    /// This selection with the best runs asked for in the given number, whatever
    /// was asked of them before.
    pub open spec fn with_best_runs(self, mode: SeasonBestRuns) -> Selection {
        Selection { best_runs: Some(mode), ..self }
    }

    /// The token written at place `index` of the fixed order, or `None` where
    /// that place's field is not selected. Places outside the order hold nothing.
    pub open spec fn slot(self, index: int) -> Option<Seq<char>> {
        if index == 0 {
            flag(self.gear, "gear"@)
        } else if index == 1 {
            flag(self.guild, "guild"@)
        } else if index == 2 {
            flag(self.raid_progression, "raid_progression"@)
        } else if index == 3 {
            match self.seasons {
                Some(seasons) => Some("mythic_plus_scores_by_season"@ + selectors(seasons)),
                None => None,
            }
        } else if index == 4 {
            flag(self.ranks, "mythic_plus_ranks"@)
        } else if index == 5 {
            flag(self.recent_runs, "mythic_plus_recent_runs"@)
        } else if index == 6 {
            match self.best_runs {
                Some(SeasonBestRuns::All) => Some("mythic_plus_best_runs"@ + ":all"@),
                Some(SeasonBestRuns::Three) => Some("mythic_plus_best_runs"@),
                None => None,
            }
        } else if index == 7 {
            flag(self.highest_runs, "mythic_plus_highest_level_runs"@)
        } else if index == 8 {
            flag(self.weekly_highest_runs, "mythic_plus_weekly_highest_level_runs"@)
        } else if index == 9 {
            flag(
                self.previous_weekly_highest_runs,
                "mythic_plus_previous_weekly_highest_level_runs"@,
            )
        } else if index == 10 {
            flag(self.previous_ranks, "previous_mythic_plus_ranks"@)
        } else {
            None
        }
    }

    /// The first place at or after `index` that holds a token, or `SLOTS` if
    /// there is none.
    pub open spec fn next_slot(self, index: int) -> int
        decreases SLOTS - index,
    {
        if index < 0 || index >= SLOTS {
            SLOTS as int
        } else if self.slot(index) is Some {
            index
        } else {
            self.next_slot(index + 1)
        }
    }

    /// The tokens of the places from `index` on, in order.
    pub open spec fn tokens_from(self, index: int) -> Seq<Seq<char>>
        decreases SLOTS - index,
    {
        if index < 0 || index >= SLOTS {
            Seq::<Seq<char>>::empty()
        } else {
            match self.slot(index) {
                Some(token) => seq![token] + self.tokens_from(index + 1),
                None => self.tokens_from(index + 1),
            }
        }
    }

    /// The tokens of all selected fields, in the fixed order.
    pub open spec fn tokens(self) -> Seq<Seq<char>> {
        self.tokens_from(0)
    }

    /// The value of the `fields` query parameter: the tokens with a comma
    /// between neighbours.
    pub open spec fn rendered(self) -> Seq<char> {
        joined(self.tokens(), ","@)
    }

    /// From a place on, the tokens are the token of the next place that holds
    /// one, followed by the tokens behind it; there are none if no place holds
    /// one.
    pub proof fn lemma_tokens_from_next(self, index: int)
        requires
            0 <= index <= SLOTS,
        ensures
            self.next_slot(index) == SLOTS ==> self.tokens_from(index) == Seq::<Seq<char>>::empty(),
            self.next_slot(index) < SLOTS ==> self.tokens_from(index) == seq![
                self.slot(self.next_slot(index)).unwrap(),
            ] + self.tokens_from(self.next_slot(index) + 1),
            self.next_slot(index) < SLOTS ==> self.slot(self.next_slot(index)) is Some,
            index <= self.next_slot(index) <= SLOTS,
        decreases SLOTS - index,
    {
        if index < SLOTS && self.slot(index) is None {
            self.lemma_tokens_from_next(index + 1);
        }
    }
}

/// The selectors of any seasons hold no comma.
pub proof fn lemma_selectors_comma_free(seasons: Seq<Season>)
    ensures
        !selectors(seasons).contains(','),
    decreases seasons.len(),
{
    if seasons.len() > 0 {
        lemma_selectors_comma_free(seasons.drop_last());
        seasons.last().lemma_selector_plain();
        lemma_concat_without(selectors(seasons.drop_last()), seasons.last().selector(), ',');
    }
}

/// No field name is empty or holds a comma.
proof fn lemma_names_plain()
    ensures
        "gear"@.len() > 0,
        "guild"@.len() > 0,
        "raid_progression"@.len() > 0,
        "mythic_plus_scores_by_season"@.len() > 0,
        "mythic_plus_ranks"@.len() > 0,
        "mythic_plus_recent_runs"@.len() > 0,
        "mythic_plus_best_runs"@.len() > 0,
        "mythic_plus_highest_level_runs"@.len() > 0,
        "mythic_plus_weekly_highest_level_runs"@.len() > 0,
        "mythic_plus_previous_weekly_highest_level_runs"@.len() > 0,
        "previous_mythic_plus_ranks"@.len() > 0,
        !"gear"@.contains(','),
        !"guild"@.contains(','),
        !"raid_progression"@.contains(','),
        !"mythic_plus_scores_by_season"@.contains(','),
        !"mythic_plus_ranks"@.contains(','),
        !"mythic_plus_recent_runs"@.contains(','),
        !"mythic_plus_best_runs"@.contains(','),
        !":all"@.contains(','),
        !"mythic_plus_highest_level_runs"@.contains(','),
        !"mythic_plus_weekly_highest_level_runs"@.contains(','),
        !"mythic_plus_previous_weekly_highest_level_runs"@.contains(','),
        !"previous_mythic_plus_ranks"@.contains(','),
{
    reveal_strlit("gear");
    reveal_strlit("guild");
    reveal_strlit("raid_progression");
    reveal_strlit("mythic_plus_scores_by_season");
    reveal_strlit("mythic_plus_ranks");
    reveal_strlit("mythic_plus_recent_runs");
    reveal_strlit("mythic_plus_best_runs");
    reveal_strlit(":all");
    reveal_strlit("mythic_plus_highest_level_runs");
    reveal_strlit("mythic_plus_weekly_highest_level_runs");
    reveal_strlit("mythic_plus_previous_weekly_highest_level_runs");
    reveal_strlit("previous_mythic_plus_ranks");
}

impl Selection {
    /// The value of the `fields` query parameter, or `None` where nothing is
    /// selected: the parameter is then left out, not sent empty.
    pub open spec fn parameter(self) -> Option<Seq<char>> {
        if self.tokens().len() == 0 {
            None
        } else {
            Some(self.rendered())
        }
    }

    /// No token is empty or holds a comma.
    pub proof fn lemma_slot_plain(self, index: int)
        ensures
            self.slot(index) is Some ==> self.slot(index).unwrap().len() > 0 && !self.slot(
                index,
            ).unwrap().contains(','),
    {
        lemma_names_plain();
        if index == 3 && self.seasons is Some {
            lemma_selectors_comma_free(self.seasons.unwrap());
            lemma_concat_without(
                "mythic_plus_scores_by_season"@,
                selectors(self.seasons.unwrap()),
                ',',
            );
        }
        if index == 6 {
            lemma_concat_without("mythic_plus_best_runs"@, ":all"@, ',');
        }
    }

    /// The tokens from a place on are non-empty texts without comma.
    pub proof fn lemma_tokens_plain(self, index: int)
        ensures
            forall|i: int|
                0 <= i < self.tokens_from(index).len() ==> (#[trigger] self.tokens_from(
                    index,
                )[i]).len() > 0 && !self.tokens_from(index)[i].contains(','),
        decreases SLOTS - index,
    {
        if 0 <= index < SLOTS {
            self.lemma_tokens_plain(index + 1);
            self.lemma_slot_plain(index);
            let here = self.tokens_from(index);
            let behind = self.tokens_from(index + 1);
            assert forall|i: int| 0 <= i < here.len() implies (#[trigger] here[i]).len() > 0
                && !here[i].contains(',') by {
                if self.slot(index) is Some && i > 0 {
                    assert(here[i] == behind[i - 1]);
                }
            }
        }
    }

    /// The rendered text holds exactly the tokens of the selected fields: cut
    /// at its commas, it gives them back, in their order.
    pub proof fn lemma_rendered_splits_into_tokens(self)
        requires
            self.tokens().len() > 0,
        ensures
            split(self.rendered(), ',') == self.tokens(),
    {
        reveal_strlit(",");
        assert(","@ =~= seq![',']);
        self.lemma_tokens_plain(0);
        lemma_split_joined(self.tokens(), ',');
    }

    /// The rendered text of a selection that selects something is not empty and
    /// neither begins nor ends with a comma.
    pub proof fn lemma_rendered_edges(self)
        requires
            self.tokens().len() > 0,
        ensures
            self.rendered().len() > 0,
            self.rendered().first() != ',',
            self.rendered().last() != ',',
    {
        self.lemma_tokens_plain(0);
        lemma_joined_edges(self.tokens(), ","@);
        let head = self.tokens().first();
        let tail = self.tokens().last();
        assert(head.contains(head.first()));
        assert(tail.contains(tail.last()));
    }

    /// There are no tokens exactly when nothing is selected, and exactly then
    /// the rendered text is empty.
    pub proof fn lemma_nothing_selected(self)
        ensures
            self.tokens().len() == 0 <==> self == Selection::nothing(),
            self.tokens().len() == 0 <==> self.rendered().len() == 0,
    {
        reveal_with_fuel(Selection::tokens_from, 12);
        if self.tokens().len() > 0 {
            self.lemma_tokens_plain(0);
            lemma_joined_edges(self.tokens(), ","@);
        }
    }

    /// Of two selections of best runs, the later one alone counts.
    pub proof fn lemma_best_runs_last_wins(self, first: SeasonBestRuns, second: SeasonBestRuns)
        ensures
            self.with_best_runs(first).with_best_runs(second) == self.with_best_runs(second),
            self.with_best_runs(SeasonBestRuns::All).slot(6) == Some(
                "mythic_plus_best_runs"@ + ":all"@,
            ),
            self.with_best_runs(SeasonBestRuns::Three).slot(6) == Some("mythic_plus_best_runs"@),
            forall|index: int|
                index != 6 ==> self.with_best_runs(second).slot(index) == self.slot(index),
    {
    }

    /// Selecting a season twice is the same as selecting it once, and the
    /// seasons stay free of repetitions.
    pub proof fn lemma_season_idempotent(self, season: Season)
        ensures
            self.with_season(season).with_season(season) == self.with_season(season),
            self.with_season(season).seasons.unwrap().contains(season),
            (self.seasons is Some ==> self.seasons.unwrap().no_duplicates())
                ==> self.with_season(season).seasons.unwrap().no_duplicates(),
    {
        let once = self.with_season(season).seasons.unwrap();
        match self.seasons {
            None => {
                assert(once[0] == season);
            },
            Some(seasons) => {
                if !seasons.contains(season) {
                    assert(once[seasons.len() as int] == season);
                }
            },
        }
    }
}

/// The optional fields that a request asks for.
pub struct CharacterDetailsFields {
    gear: bool,
    guild: bool,
    raid_progression: bool,
    mythic_plus_by_season: Option<Vec<Season>>,
    mythic_plus_ranks: bool,
    mythic_plus_recent_runs: bool,
    mythic_plus_best_runs: Option<SeasonBestRuns>,
    mythic_plus_highest_runs: bool,
    mythic_plus_weekly_highest_runs: bool,
    mythic_plus_previous_week_highest_runs: bool,
    mythic_plus_previous_week_ranking: bool,
}

impl View for CharacterDetailsFields {
    type V = Selection;

    closed spec fn view(&self) -> Selection {
        Selection {
            gear: self.gear,
            guild: self.guild,
            raid_progression: self.raid_progression,
            seasons: match self.mythic_plus_by_season {
                Some(seasons) => Some(seasons@),
                None => None,
            },
            ranks: self.mythic_plus_ranks,
            recent_runs: self.mythic_plus_recent_runs,
            best_runs: self.mythic_plus_best_runs,
            highest_runs: self.mythic_plus_highest_runs,
            weekly_highest_runs: self.mythic_plus_weekly_highest_runs,
            previous_weekly_highest_runs: self.mythic_plus_previous_week_highest_runs,
            previous_ranks: self.mythic_plus_previous_week_ranking,
        }
    }
}

impl Default for CharacterDetailsFields {
    /// The selection that asks for nothing.
    fn default() -> (res: Self)
        ensures
            res@ == Selection::nothing(),
    {
        CharacterDetailsFields {
            gear: false,
            guild: false,
            raid_progression: false,
            mythic_plus_ranks: false,
            mythic_plus_recent_runs: false,
            mythic_plus_weekly_highest_runs: false,
            mythic_plus_best_runs: None,
            mythic_plus_highest_runs: false,
            mythic_plus_previous_week_ranking: false,
            mythic_plus_previous_week_highest_runs: false,
            mythic_plus_by_season: None,
        }
    }
}

/// The name of a field if it is selected.
fn flag_text(selected: bool, name: &str) -> (res: Option<String>)
    ensures
        res.deep_view() == flag(selected, name@),
{
    if selected {
        Some(String::from_str(name))
    } else {
        None
    }
}

impl CharacterDetailsFields {
    /// No season is held twice.
    #[verifier::type_invariant]
    spec fn seasons_distinct(self) -> bool {
        match self.mythic_plus_by_season {
            Some(seasons) => seasons@.no_duplicates(),
            None => true,
        }
    }

    /// The seasons whose scores are asked for, in the order in which they were
    /// first selected. None of them occurs twice.
    pub fn seasons(&self) -> (res: Option<&Vec<Season>>)
        ensures
            res is Some <==> self@.seasons is Some,
            res is Some ==> res.unwrap()@ == self@.seasons.unwrap(),
            res is Some ==> res.unwrap()@.no_duplicates(),
    {
        proof {
            use_type_invariant(self);
        }
        match &self.mythic_plus_by_season {
            Some(seasons) => Some(seasons),
            None => None,
        }
    }

    /// The token written at place `index` of the fixed order, if that place's
    /// field is selected.
    pub fn slot_text(&self, index: u8) -> (res: Option<String>)
        ensures
            res.deep_view() == self@.slot(index as int),
    {
        match index {
            0 => flag_text(self.gear, "gear"),
            1 => flag_text(self.guild, "guild"),
            2 => flag_text(self.raid_progression, "raid_progression"),
            3 => match &self.mythic_plus_by_season {
                Some(list) => {
                    let mut token = String::from_str("mythic_plus_scores_by_season");
                    let ghost name = token@;
                    let mut i: usize = 0;
                    assert(list@.take(0) =~= Seq::<Season>::empty());
                    while i < list.len()
                        invariant
                            i <= list.len(),
                            token@ == name + selectors(list@.take(i as int)),
                        decreases list.len() - i,
                    {
                        let selector = list[i].selector_text();
                        token.append(selector.as_str());
                        assert(list@.take(i + 1).drop_last() =~= list@.take(i as int));
                        assert(token@ =~= name + selectors(list@.take(i + 1)));
                        i += 1;
                    }
                    assert(list@.take(i as int) =~= list@);
                    Some(token)
                },
                None => None,
            },
            4 => flag_text(self.mythic_plus_ranks, "mythic_plus_ranks"),
            5 => flag_text(self.mythic_plus_recent_runs, "mythic_plus_recent_runs"),
            6 => match self.mythic_plus_best_runs {
                Some(mode) => {
                    let mut token = String::from_str("mythic_plus_best_runs");
                    if let SeasonBestRuns::All = mode {
                        token.append(":all");
                    }
                    Some(token)
                },
                None => None,
            },
            7 => flag_text(self.mythic_plus_highest_runs, "mythic_plus_highest_level_runs"),
            8 => flag_text(
                self.mythic_plus_weekly_highest_runs,
                "mythic_plus_weekly_highest_level_runs",
            ),
            9 => flag_text(
                self.mythic_plus_previous_week_highest_runs,
                "mythic_plus_previous_weekly_highest_level_runs",
            ),
            10 => flag_text(self.mythic_plus_previous_week_ranking, "previous_mythic_plus_ranks"),
            _ => None,
        }
    }

    /// A walk over the tokens of the selected fields, from the first place on.
    pub fn iter(&self) -> (res: CharacterDetailsFieldsIter<'_>)
        ensures
            res.fields() == self,
            res.position() == 0,
    {
        CharacterDetailsFieldsIter { fields: self, index: 0 }
    }

    /// The value of the `fields` query parameter: the tokens of the selected
    /// fields in the fixed order, with a comma between neighbours. It is empty
    /// where nothing is selected.
    pub fn text(&self) -> (res: String)
        ensures
            res@ == self@.rendered(),
    {
        let mut walk = self.iter();
        let mut tokens: Vec<String> = Vec::new();
        assert(tokens.deep_view() =~= Seq::<Seq<char>>::empty());
        loop
            invariant_except_break
                walk.fields() == self,
                walk.position() <= SLOTS,
                tokens.deep_view() + self@.tokens_from(walk.position() as int) == self@.tokens(),
            ensures
                tokens.deep_view() == self@.tokens(),
            decreases SLOTS - walk.position(),
        {
            let ghost at = walk.position() as int;
            let ghost before = tokens.deep_view();
            proof {
                self@.lemma_tokens_from_next(at);
            }
            match walk.next() {
                Some(token) => {
                    tokens.push(token);
                    assert(tokens.deep_view() =~= before.push(token@));
                    assert(tokens.deep_view() + self@.tokens_from(walk.position() as int)
                        =~= before + self@.tokens_from(at));
                },
                None => {
                    assert(tokens.deep_view() =~= self@.tokens());
                    break ;
                },
            }
        }
        join_with(&tokens, ",")
    }

    /// The value of the `fields` query parameter, or `None` where nothing is
    /// selected.
    pub fn parameter(&self) -> (res: Option<String>)
        ensures
            res.deep_view() == self@.parameter(),
            res is None <==> self@ == Selection::nothing(),
    {
        let fields = self.text();
        proof {
            self@.lemma_nothing_selected();
        }
        if fields.as_str().is_empty() {
            None
        } else {
            Some(fields)
        }
    }
}

/// A walk over the tokens of a selection, place by place.
pub struct CharacterDetailsFieldsIter<'c> {
    fields: &'c CharacterDetailsFields,
    index: u8,
}

impl<'c> CharacterDetailsFieldsIter<'c> {
    /// The selection that is walked over.
    pub closed spec fn fields(&self) -> &'c CharacterDetailsFields {
        self.fields
    }

    /// The place at which the walk goes on.
    pub closed spec fn position(&self) -> u8 {
        self.index
    }

    /// The token of the next place that holds one, or `None` when no place is
    /// left. The walk goes on behind the place whose token it gave, and stays at
    /// the end once it is there.
    pub fn next(&mut self) -> (res: Option<String>)
        ensures
            final(self).fields() == old(self).fields(),
            ({
                let selection = old(self).fields()@;
                let found = selection.next_slot(old(self).position() as int);
                if found < SLOTS {
                    &&& res.deep_view() == selection.slot(found)
                    &&& final(self).position() == found + 1
                } else {
                    &&& res is None
                    &&& final(self).position() == if old(self).position() > SLOTS {
                        old(self).position()
                    } else {
                        SLOTS
                    }
                }
            }),
    {
        if self.index > SLOTS {
            return None;
        }
        while self.index < SLOTS
            invariant
                self.fields == old(self).fields,
                old(self).index <= self.index <= SLOTS,
                self.fields@.next_slot(old(self).index as int) == self.fields@.next_slot(
                    self.index as int,
                ),
            decreases SLOTS - self.index,
        {
            let index = self.index;
            self.index += 1;
            let token = self.fields.slot_text(index);
            if token.is_some() {
                return token;
            }
        }
        None
    }
}

/// The address of the service.
pub const BASE_URL: &'static str = "https://raider.io/api/v1";

/// The path of the character profile endpoint below the service's address.
pub const PROFILE_PATH: &'static str = "/characters/profile";

/// A request for a character's profile, as a mathematical value.
pub struct RequestView {
    /// The character's name.
    pub name: Seq<char>,
    /// The region of the character's realm.
    pub region: Region,
    /// The character's realm.
    pub realm: Seq<char>,
    /// The optional fields that are asked for.
    pub selection: Selection,
}

impl RequestView {
    /// The query parameters of the request, in the order in which they are
    /// sent: `name`, `region` with the region's code, `realm`, and `fields` with
    /// the rendered selection unless nothing is selected.
    pub open spec fn query(self) -> Seq<(Seq<char>, Seq<char>)> {
        let fixed = seq![
            ("name"@, self.name),
            ("region"@, self.region.wire_name()),
            ("realm"@, self.realm),
        ];
        match self.selection.parameter() {
            Some(fields) => fixed.push(("fields"@, fields)),
            None => fixed,
        }
    }
}

/// The address to which requests for a character's profile go.
pub fn endpoint() -> (res: String)
    ensures
        res@ == BASE_URL@ + PROFILE_PATH@,
{
    let mut url = String::from_str(BASE_URL);
    url.append(PROFILE_PATH);
    url
}

/// A request for a character's profile.
pub struct CharacterDetailsRequest<'c> {
    name: &'c str,
    region: Region,
    realm: &'c str,
    fields: CharacterDetailsFields,
}

impl<'c> View for CharacterDetailsRequest<'c> {
    type V = RequestView;

    closed spec fn view(&self) -> RequestView {
        RequestView {
            name: self.name@,
            region: self.region,
            realm: self.realm@,
            selection: self.fields@,
        }
    }
}

impl<'c> CharacterDetailsRequest<'c> {
    /// A request for the character `name` of `realm` in `region`, which asks
    /// for no optional field.
    pub fn new(region: Region, name: &'c str, realm: &'c str) -> (res: Self)
        ensures
            res@ == (RequestView {
                name: name@,
                region,
                realm: realm@,
                selection: Selection::nothing(),
            }),
    {
        CharacterDetailsRequest { name, region, realm, fields: CharacterDetailsFields::default() }
    }

    /// The optional fields that the request asks for.
    pub fn fields(&self) -> (res: &CharacterDetailsFields)
        ensures
            res@ == self@.selection,
    {
        &self.fields
    }

    /// The query parameters with which the request goes to the service, as
    /// pairs of name and value.
    pub fn query(&self) -> (res: Vec<(String, String)>)
        ensures
            res.deep_view() == self@.query(),
    {
        let mut pairs: Vec<(String, String)> = Vec::new();
        pairs.push((String::from_str("name"), String::from_str(self.name)));
        pairs.push((String::from_str("region"), String::from_str(self.region.text())));
        pairs.push((String::from_str("realm"), String::from_str(self.realm)));
        match self.fields.parameter() {
            Some(fields) => {
                pairs.push((String::from_str("fields"), fields));
            },
            None => {},
        }
        assert(pairs.deep_view() =~= self@.query());
        pairs
    }

    /// Asks for the raid achievement meta of the given raid tiers. The service
    /// knows the field, but how it is written is not settled here: the
    /// selection is refused, and nothing is added to the request.
    pub fn raid_achievement_meta(self, tiers: Vec<u8>) -> (res: Result<Self, Error>)
        ensures
            res == Err::<Self, Error>(Error::NotImplemented),
    {
        Err(Error::NotImplemented)
    }

    /// Asks for the raid achievement curve of the given raid tiers. The service
    /// knows the field, but how it is written is not settled here: the
    /// selection is refused, and nothing is added to the request.
    pub fn raid_achievement_curve(self, tiers: Vec<u8>) -> (res: Result<Self, Error>)
        ensures
            res == Err::<Self, Error>(Error::NotImplemented),
    {
        Err(Error::NotImplemented)
    }

    /// The same request with nothing selected.
    pub fn clear(self) -> (res: Self)
        ensures
            res@ == (RequestView { selection: Selection::nothing(), ..self@ }),
    {
        let mut request = self;
        request.fields = CharacterDetailsFields::default();
        request
    }

    /// Asks for the guild that the character is in.
    pub fn guild(self) -> (res: Self)
        ensures
            res@ == (RequestView {
                selection: Selection { guild: true, ..self@.selection },
                ..self@
            }),
    {
        proof {
            use_type_invariant(&self.fields);
        }
        let mut request = self;
        request.fields.guild = true;
        request
    }

    /// Asks for what the character wears.
    pub fn gear(self) -> (res: Self)
        ensures
            res@ == (RequestView {
                selection: Selection { gear: true, ..self@.selection },
                ..self@
            }),
    {
        proof {
            use_type_invariant(&self.fields);
        }
        let mut request = self;
        request.fields.gear = true;
        request
    }

    /// Asks for the scores of `season`, beside those of the seasons selected
    /// before. A season that is selected already is not added again.
    pub fn mythic_plus_score_by_season(self, season: Season) -> (res: Self)
        ensures
            res@ == (RequestView { selection: self@.selection.with_season(season), ..self@ }),
    {
        proof {
            use_type_invariant(&self.fields);
        }
        let mut request = self;
        match request.fields.mythic_plus_by_season {
            None => {
                let mut set: Vec<Season> = Vec::new();
                set.push(season);
                assert(set@ =~= seq![season]);
                request.fields.mythic_plus_by_season = Some(set);
            },
            Some(set) => {
                let mut set = set;
                if !holds_season(&set, season) {
                    set.push(season);
                }
                request.fields.mythic_plus_by_season = Some(set);
            },
        };
        request
    }

    /// Asks for the character's rankings of the running season.
    pub fn mythic_plus_ranks(self) -> (res: Self)
        ensures
            res@ == (RequestView {
                selection: Selection { ranks: true, ..self@.selection },
                ..self@
            }),
    {
        proof {
            use_type_invariant(&self.fields);
        }
        let mut request = self;
        request.fields.mythic_plus_ranks = true;
        request
    }

    /// Asks for the character's raid progression.
    pub fn raid_progression(self) -> (res: Self)
        ensures
            res@ == (RequestView {
                selection: Selection { raid_progression: true, ..self@.selection },
                ..self@
            }),
    {
        proof {
            use_type_invariant(&self.fields);
        }
        let mut request = self;
        request.fields.raid_progression = true;
        request
    }

    /// Asks for the character's three most recent runs of the running season.
    pub fn mythic_plus_recent_runs(self) -> (res: Self)
        ensures
            res@ == (RequestView {
                selection: Selection { recent_runs: true, ..self@.selection },
                ..self@
            }),
    {
        proof {
            use_type_invariant(&self.fields);
        }
        let mut request = self;
        request.fields.mythic_plus_recent_runs = true;
        request
    }

    /// Asks for all of the character's best runs of the running season, in
    /// place of what was asked of the best runs before.
    pub fn mythic_plus_all_best_runs(self) -> (res: Self)
        ensures
            res@ == (RequestView {
                selection: self@.selection.with_best_runs(SeasonBestRuns::All),
                ..self@
            }),
    {
        proof {
            use_type_invariant(&self.fields);
        }
        let mut request = self;
        request.fields.mythic_plus_best_runs = Some(SeasonBestRuns::All);
        request
    }

    /// Asks for the character's three best runs of the running season, in place
    /// of what was asked of the best runs before.
    pub fn mythic_plus_three_best_runs(self) -> (res: Self)
        ensures
            res@ == (RequestView {
                selection: self@.selection.with_best_runs(SeasonBestRuns::Three),
                ..self@
            }),
    {
        proof {
            use_type_invariant(&self.fields);
        }
        let mut request = self;
        request.fields.mythic_plus_best_runs = Some(SeasonBestRuns::Three);
        request
    }

    /// Asks for the character's three runs of the highest level in the running
    /// season.
    pub fn mythic_plus_highest_runs(self) -> (res: Self)
        ensures
            res@ == (RequestView {
                selection: Selection { highest_runs: true, ..self@.selection },
                ..self@
            }),
    {
        proof {
            use_type_invariant(&self.fields);
        }
        let mut request = self;
        request.fields.mythic_plus_highest_runs = true;
        request
    }

    /// Asks for the character's three runs of the highest level in the running
    /// week.
    pub fn mythic_plus_weekly_highest_level_runs(self) -> (res: Self)
        ensures
            res@ == (RequestView {
                selection: Selection { weekly_highest_runs: true, ..self@.selection },
                ..self@
            }),
    {
        proof {
            use_type_invariant(&self.fields);
        }
        let mut request = self;
        request.fields.mythic_plus_weekly_highest_runs = true;
        request
    }

    /// Asks for the character's three runs of the highest level in the week
    /// before.
    pub fn mythic_plus_previous_weekly_highest_level_runs(self) -> (res: Self)
        ensures
            res@ == (RequestView {
                selection: Selection { previous_weekly_highest_runs: true, ..self@.selection },
                ..self@
            }),
    {
        proof {
            use_type_invariant(&self.fields);
        }
        let mut request = self;
        request.fields.mythic_plus_previous_week_highest_runs = true;
        request
    }

    /// Asks for the character's rankings of the season before.
    pub fn previous_mythic_plus_ranks(self) -> (res: Self)
        ensures
            res@ == (RequestView {
                selection: Selection { previous_ranks: true, ..self@.selection },
                ..self@
            }),
    {
        proof {
            use_type_invariant(&self.fields);
        }
        let mut request = self;
        request.fields.mythic_plus_previous_week_ranking = true;
        request
    }
}

/// Whether `season` is among `seasons`.
fn holds_season(seasons: &Vec<Season>, season: Season) -> (res: bool)
    ensures
        res == seasons@.contains(season),
{
    let mut i: usize = 0;
    while i < seasons.len()
        invariant
            i <= seasons.len(),
            forall|j: int| 0 <= j < i ==> seasons@[j] != season,
        decreases seasons.len() - i,
    {
        if seasons[i] == season {
            return true;
        }
        i += 1;
    }
    false
}

} // verus!
