use raider_io::mythic_plus::{Season, SeasonBestRuns};
use raider_io::Expansion;
use std::str::FromStr;

fn bfa(number: u8) -> Season {
    Season::Specific {
        expansion: Expansion::BattleForAzeroth,
        number,
    }
}

#[test]
fn selectors_of_the_three_kinds() {
    assert_eq!(Season::Previous.selector_text(), ":previous");
    assert_eq!(Season::Current.selector_text(), ":current");
    assert_eq!(bfa(1).selector_text(), ":season-bfa-1");
    assert_eq!(bfa(0).selector_text(), ":season-bfa-0");
    assert_eq!(bfa(42).selector_text(), ":season-bfa-42");
    assert_eq!(bfa(100).selector_text(), ":season-bfa-100");
    assert_eq!(bfa(255).selector_text(), ":season-bfa-255");
}

#[test]
fn specific_season_round_trips() {
    assert_eq!(bfa(1).selector_text(), ":season-bfa-1");
    assert_eq!(Season::parse("mythic_plus_scores_by_season-bfa-1"), Ok(bfa(1)));
    assert_eq!(Season::parse(":season-bfa-1"), Ok(bfa(1)));
    for number in 0..=255u8 {
        let text = bfa(number).selector_text();
        assert_eq!(Season::parse(&text), Ok(bfa(number)));
    }
}

#[test]
fn season_without_number_is_refused() {
    assert_eq!(Season::parse("season-bfa"), Err("no season number"));
    assert_eq!("season-bfa".parse::<Season>(), Err("no season number"));
}

#[test]
fn season_of_unknown_expansion_is_refused() {
    assert_eq!(Season::parse("season-legion-1"), Err("unknown expansion"));
    assert_eq!(Season::parse("season-BFA-1"), Err("unknown expansion"));
    assert_eq!(Season::parse("season--1"), Err("unknown expansion"));
    assert_eq!(Season::parse("season-legion"), Err("unknown expansion"));
}

#[test]
fn season_without_expansion_is_refused() {
    assert_eq!(Season::parse("season"), Err("no expansion"));
    assert_eq!(Season::parse(""), Err("no expansion"));
    assert_eq!(Season::parse("bfa"), Err("no expansion"));
}

#[test]
fn season_with_bad_number_is_refused() {
    assert_eq!(Season::parse("season-bfa-"), Err("invalid number"));
    assert_eq!(Season::parse("season-bfa-one"), Err("invalid number"));
    assert_eq!(Season::parse("season-bfa-256"), Err("invalid number"));
    assert_eq!(Season::parse("season-bfa-1000"), Err("invalid number"));
    assert_eq!(Season::parse("season-bfa- 1"), Err("invalid number"));
    assert_eq!(Season::parse("season-bfa-1x"), Err("invalid number"));
    assert_eq!(Season::parse("season-bfa-+"), Err("invalid number"));
    assert_eq!(Season::parse("season-bfa--1"), Err("invalid number"));
}

#[test]
fn season_number_is_read_as_the_standard_library_reads_it() {
    assert_eq!(Season::parse("s-bfa-+7"), Ok(bfa(7)));
    assert_eq!(Season::parse("s-bfa-007"), Ok(bfa(7)));
    assert_eq!(Season::parse("s-bfa-255"), Ok(bfa(255)));
    assert_eq!(Season::parse("s-bfa-0"), Ok(bfa(0)));
    assert_eq!(Season::parse("-bfa-3"), Ok(bfa(3)));
}

#[test]
fn pieces_behind_the_number_are_not_looked_at() {
    assert_eq!(Season::parse("season-bfa-2-post"), Ok(bfa(2)));
    assert_eq!(Season::parse("season-bfa-2-"), Ok(bfa(2)));
}

#[test]
fn from_str_agrees_with_parse() {
    assert_eq!(Season::from_str("x-bfa-9"), Ok(bfa(9)));
    assert_eq!(Season::from_str("x"), Err("no expansion"));
    assert_eq!(Season::from_str("x-y-1"), Err("unknown expansion"));
    assert_eq!(Season::from_str("x-bfa-y"), Err("invalid number"));
}

#[test]
fn best_runs_modes_differ() {
    assert_ne!(SeasonBestRuns::All, SeasonBestRuns::Three);
}
