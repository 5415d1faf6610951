use raider_io::mythic_plus::Season;
use raider_io::request::{endpoint, BASE_URL, PROFILE_PATH, SLOTS};
use raider_io::{CharacterDetailsFields, CharacterDetailsRequest, Error, Expansion, Region};

fn fresh() -> CharacterDetailsRequest<'static> {
    CharacterDetailsRequest::new(Region::Europe, "Andybrew", "Draenor")
}

fn pair(name: &str, value: &str) -> (String, String) {
    (name.to_string(), value.to_string())
}

fn fields_of(request: &CharacterDetailsRequest<'_>) -> Option<String> {
    request
        .query()
        .into_iter()
        .find(|(name, _)| name == "fields")
        .map(|(_, value)| value)
}

#[test]
fn it_works() {
    assert_eq!(2 + 2, 4);
}

#[test]
fn nothing_selected_sends_no_fields_parameter() {
    let request = fresh();
    assert_eq!(
        request.query(),
        vec![
            pair("name", "Andybrew"),
            pair("region", "eu"),
            pair("realm", "Draenor"),
        ]
    );
    let fields = CharacterDetailsFields::default();
    assert_eq!(fields.text(), "");
    assert_eq!(fields.parameter(), None);
}

#[test]
fn one_field_is_written_without_comma() {
    assert_eq!(fields_of(&fresh().gear()), Some("gear".to_string()));
    assert_eq!(fields_of(&fresh().guild()), Some("guild".to_string()));
    assert_eq!(
        fields_of(&fresh().raid_progression()),
        Some("raid_progression".to_string())
    );
    assert_eq!(
        fields_of(&fresh().mythic_plus_ranks()),
        Some("mythic_plus_ranks".to_string())
    );
    assert_eq!(
        fields_of(&fresh().mythic_plus_recent_runs()),
        Some("mythic_plus_recent_runs".to_string())
    );
    assert_eq!(
        fields_of(&fresh().mythic_plus_highest_runs()),
        Some("mythic_plus_highest_level_runs".to_string())
    );
    assert_eq!(
        fields_of(&fresh().mythic_plus_weekly_highest_level_runs()),
        Some("mythic_plus_weekly_highest_level_runs".to_string())
    );
    assert_eq!(
        fields_of(&fresh().mythic_plus_previous_weekly_highest_level_runs()),
        Some("mythic_plus_previous_weekly_highest_level_runs".to_string())
    );
    assert_eq!(
        fields_of(&fresh().previous_mythic_plus_ranks()),
        Some("previous_mythic_plus_ranks".to_string())
    );
}

#[test]
fn fields_come_in_the_fixed_order_whatever_the_order_of_selection() {
    let request = fresh()
        .previous_mythic_plus_ranks()
        .mythic_plus_previous_weekly_highest_level_runs()
        .mythic_plus_weekly_highest_level_runs()
        .mythic_plus_highest_runs()
        .mythic_plus_three_best_runs()
        .mythic_plus_recent_runs()
        .mythic_plus_ranks()
        .mythic_plus_score_by_season(Season::Current)
        .raid_progression()
        .guild()
        .gear();
    assert_eq!(
        fields_of(&request),
        Some(
            "gear,guild,raid_progression,mythic_plus_scores_by_season:current,\
             mythic_plus_ranks,mythic_plus_recent_runs,mythic_plus_best_runs,\
             mythic_plus_highest_level_runs,mythic_plus_weekly_highest_level_runs,\
             mythic_plus_previous_weekly_highest_level_runs,previous_mythic_plus_ranks"
                .to_string()
        )
    );
}

#[test]
fn full_selection_is_sent_as_four_parameters() {
    let request = fresh()
        .guild()
        .gear()
        .mythic_plus_score_by_season(Season::Current)
        .mythic_plus_score_by_season(Season::Specific {
            expansion: Expansion::BattleForAzeroth,
            number: 1,
        })
        .mythic_plus_ranks()
        .raid_progression()
        .mythic_plus_recent_runs()
        .mythic_plus_all_best_runs()
        .mythic_plus_three_best_runs()
        .mythic_plus_highest_runs()
        .mythic_plus_weekly_highest_level_runs()
        .mythic_plus_previous_weekly_highest_level_runs()
        .previous_mythic_plus_ranks();
    assert_eq!(
        request.query(),
        vec![
            pair("name", "Andybrew"),
            pair("region", "eu"),
            pair("realm", "Draenor"),
            pair(
                "fields",
                "gear,guild,raid_progression,\
                 mythic_plus_scores_by_season:current:season-bfa-1,\
                 mythic_plus_ranks,mythic_plus_recent_runs,mythic_plus_best_runs,\
                 mythic_plus_highest_level_runs,mythic_plus_weekly_highest_level_runs,\
                 mythic_plus_previous_weekly_highest_level_runs,previous_mythic_plus_ranks"
            ),
        ]
    );
}

#[test]
fn two_fields_are_joined_by_one_comma() {
    let text = fields_of(&fresh().guild().previous_mythic_plus_ranks()).unwrap();
    assert_eq!(text, "guild,previous_mythic_plus_ranks");
    assert!(!text.starts_with(','));
    assert!(!text.ends_with(','));
    assert_eq!(
        text.split(',').collect::<Vec<_>>(),
        vec!["guild", "previous_mythic_plus_ranks"]
    );
}

#[test]
fn best_runs_last_selection_wins() {
    assert_eq!(
        fields_of(&fresh().mythic_plus_all_best_runs()),
        Some("mythic_plus_best_runs:all".to_string())
    );
    assert_eq!(
        fields_of(&fresh().mythic_plus_three_best_runs()),
        Some("mythic_plus_best_runs".to_string())
    );
    assert_eq!(
        fields_of(&fresh().mythic_plus_three_best_runs().mythic_plus_all_best_runs()),
        Some("mythic_plus_best_runs:all".to_string())
    );
    assert_eq!(
        fields_of(&fresh().mythic_plus_all_best_runs().mythic_plus_three_best_runs()),
        Some("mythic_plus_best_runs".to_string())
    );
}

#[test]
fn seasons_are_written_in_order_of_first_selection() {
    let bfa = |number| Season::Specific {
        expansion: Expansion::BattleForAzeroth,
        number,
    };
    let request = fresh()
        .mythic_plus_score_by_season(Season::Previous)
        .mythic_plus_score_by_season(bfa(4))
        .mythic_plus_score_by_season(Season::Current)
        .mythic_plus_score_by_season(bfa(255));
    assert_eq!(
        fields_of(&request),
        Some(
            "mythic_plus_scores_by_season:previous:season-bfa-4:current:season-bfa-255"
                .to_string()
        )
    );
}

#[test]
fn selecting_a_season_twice_changes_nothing() {
    let bfa = |number| Season::Specific {
        expansion: Expansion::BattleForAzeroth,
        number,
    };
    let once = fresh()
        .mythic_plus_score_by_season(Season::Current)
        .mythic_plus_score_by_season(bfa(2));
    let twice = fresh()
        .mythic_plus_score_by_season(Season::Current)
        .mythic_plus_score_by_season(bfa(2))
        .mythic_plus_score_by_season(Season::Current)
        .mythic_plus_score_by_season(bfa(2));
    assert_eq!(fields_of(&once), fields_of(&twice));
    assert_eq!(
        fields_of(&twice),
        Some("mythic_plus_scores_by_season:current:season-bfa-2".to_string())
    );
}

#[test]
fn clear_resets_the_selection_and_keeps_the_character() {
    let request = fresh()
        .gear()
        .mythic_plus_all_best_runs()
        .mythic_plus_score_by_season(Season::Previous)
        .clear();
    assert_eq!(
        request.query(),
        vec![
            pair("name", "Andybrew"),
            pair("region", "eu"),
            pair("realm", "Draenor"),
        ]
    );
    assert_eq!(fields_of(&request.guild()), Some("guild".to_string()));
}

#[test]
fn region_is_sent_by_its_code() {
    for (region, code) in [
        (Region::UnitedStates, "us"),
        (Region::Europe, "eu"),
        (Region::Korea, "kr"),
        (Region::Taiwan, "tw"),
    ] {
        let request = CharacterDetailsRequest::new(region, "A", "B");
        assert_eq!(request.query()[1], pair("region", code));
    }
}

#[test]
fn reserved_fields_are_refused() {
    assert!(matches!(
        fresh().raid_achievement_meta(vec![1, 2]),
        Err(Error::NotImplemented)
    ));
    assert!(matches!(
        fresh().gear().raid_achievement_curve(Vec::new()),
        Err(Error::NotImplemented)
    ));
}

#[test]
fn endpoint_is_the_profile_path_below_the_base() {
    assert_eq!(BASE_URL, "https://raider.io/api/v1");
    assert_eq!(PROFILE_PATH, "/characters/profile");
    assert_eq!(endpoint(), "https://raider.io/api/v1/characters/profile");
}

#[test]
fn walk_gives_each_token_once() {
    let fields = CharacterDetailsFields::default();
    let mut walk = fields.iter();
    assert_eq!(walk.next(), None);
    assert_eq!(walk.next(), None);
    assert_eq!(SLOTS, 11);
    for index in 0..=255u8 {
        assert_eq!(fields.slot_text(index), None);
    }
    assert!(fields.seasons().is_none());
}

#[test]
fn walk_over_a_selection_gives_its_tokens_in_order() {
    let request = fresh()
        .previous_mythic_plus_ranks()
        .mythic_plus_all_best_runs()
        .mythic_plus_score_by_season(Season::Previous)
        .gear();
    let fields = request.fields();
    let mut walk = fields.iter();
    assert_eq!(walk.next(), Some("gear".to_string()));
    assert_eq!(
        walk.next(),
        Some("mythic_plus_scores_by_season:previous".to_string())
    );
    assert_eq!(walk.next(), Some("mythic_plus_best_runs:all".to_string()));
    assert_eq!(walk.next(), Some("previous_mythic_plus_ranks".to_string()));
    assert_eq!(walk.next(), None);
    assert_eq!(walk.next(), None);
    assert_eq!(fields.slot_text(0), Some("gear".to_string()));
    assert_eq!(fields.slot_text(1), None);
    assert_eq!(
        fields.slot_text(3),
        Some("mythic_plus_scores_by_season:previous".to_string())
    );
    assert_eq!(fields.slot_text(6), Some("mythic_plus_best_runs:all".to_string()));
    assert_eq!(fields.slot_text(10), Some("previous_mythic_plus_ranks".to_string()));
    assert_eq!(fields.slot_text(11), None);
    assert_eq!(fields.seasons(), Some(&vec![Season::Previous]));
    assert_eq!(
        fields.text(),
        "gear,mythic_plus_scores_by_season:previous,mythic_plus_best_runs:all,previous_mythic_plus_ranks"
    );
    assert_eq!(fields.parameter(), Some(fields.text()));
}
