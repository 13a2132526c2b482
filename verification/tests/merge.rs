use achievement_hunter::commands::achievements::merge_user_and_game_achievements;
use achievement_hunter::commands::merge::AchievementMap;
use achievement_hunter::error::Failure;
use achievement_hunter::steam::{Achievement, GameAchievement, PlayerGameAchievement};

fn player(name: &str, achieved: bool, achieved_at: Option<i64>) -> PlayerGameAchievement {
    PlayerGameAchievement { achievement_api_name: name.to_string(), achieved, achieved_at }
}

fn game(name: &str, display: &str, description: Option<&str>, hidden: bool) -> GameAchievement {
    GameAchievement {
        api_name: name.to_string(),
        display_name: display.to_string(),
        description: description.map(|d| d.to_string()),
        hidden,
    }
}

fn achievement(
    name: &str,
    display: &str,
    description: Option<&str>,
    hidden: bool,
    achieved: bool,
    achieved_at: Option<i64>,
) -> Achievement {
    Achievement {
        api_name: name.to_string(),
        display_name: display.to_string(),
        description: description.map(|d| d.to_string()),
        hidden,
        achieved,
        achieved_at,
    }
}

#[test]
fn merge_unites_one_pair() {
    let players = vec![player("a", true, Some(1000))];
    let games = vec![game("a", "Alpha", Some("desc"), false)];
    let merged = merge_user_and_game_achievements(&players, &games).unwrap();
    assert_eq!(merged, vec![achievement("a", "Alpha", Some("desc"), false, true, Some(1000))]);
}

#[test]
fn merge_rejects_two_against_three() {
    let players = vec![player("a", true, Some(1)), player("b", false, None)];
    let games = vec![
        game("a", "A", None, true),
        game("b", "B", None, true),
        game("c", "C", None, true),
    ];
    let error = merge_user_and_game_achievements(&players, &games).unwrap_err();
    assert_eq!(error.failure, Failure::SizeMismatch { player_achievements: 2, game_achievements: 3 });
    assert!(error.context.is_empty());
    let message = error.message();
    assert!(message.contains("2"));
    assert!(message.contains("3"));
    assert_eq!(message, "Player achievements size 2, game achievements size 3");
}

#[test]
fn merge_rejects_three_against_two() {
    let players = vec![player("a", true, None), player("b", true, None), player("c", true, None)];
    let games = vec![game("a", "A", None, true), game("b", "B", None, true)];
    let error = merge_user_and_game_achievements(&players, &games).unwrap_err();
    assert_eq!(error.failure, Failure::SizeMismatch { player_achievements: 3, game_achievements: 2 });
}

#[test]
fn merge_rejects_empty_against_one() {
    let error = merge_user_and_game_achievements(&vec![], &vec![game("a", "A", None, true)]).unwrap_err();
    assert_eq!(error.message(), "Player achievements size 0, game achievements size 1");
}

#[test]
fn merge_of_empty_lists_is_empty() {
    assert_eq!(merge_user_and_game_achievements(&vec![], &vec![]), Ok(vec![]));
}

#[test]
fn merge_of_aligned_lists_keeps_order_and_sides() {
    let players = vec![
        player("first", true, Some(1431648000)),
        player("second", false, None),
        player("third", true, Some(0)),
    ];
    let games = vec![
        game("first", "First", Some("the first"), false),
        game("second", "Second", None, true),
        game("third", "Third", Some("the third"), false),
    ];
    let merged = merge_user_and_game_achievements(&players, &games).unwrap();
    assert_eq!(
        merged,
        vec![
            achievement("first", "First", Some("the first"), false, true, Some(1431648000)),
            achievement("second", "Second", None, true, false, None),
            achievement("third", "Third", Some("the third"), false, true, Some(0)),
        ]
    );
}

#[test]
fn merge_keeps_the_last_of_a_repeated_identifier() {
    let players = vec![
        player("a", true, Some(1)),
        player("b", true, Some(2)),
        player("a", false, None),
    ];
    let games = vec![
        game("a", "A1", Some("d1"), false),
        game("b", "B", Some("db"), false),
        game("a", "A2", None, true),
    ];
    let merged = merge_user_and_game_achievements(&players, &games).unwrap();
    assert_eq!(
        merged,
        vec![
            achievement("a", "A2", None, true, false, None),
            achievement("b", "B", Some("db"), false, true, Some(2)),
        ]
    );
}

#[test]
fn merge_enters_an_unknown_game_identifier_from_the_game_record() {
    let players = vec![player("a", true, Some(1000))];
    let games = vec![game("b", "Beta", Some("d"), true)];
    let merged = merge_user_and_game_achievements(&players, &games).unwrap();
    assert_eq!(
        merged,
        vec![
            achievement("a", "", None, false, true, Some(1000)),
            achievement("b", "Beta", Some("d"), true, false, None),
        ]
    );
}

#[test]
fn merge_of_crossed_lists_unites_by_identifier() {
    let players = vec![player("a", true, Some(5)), player("b", false, None)];
    let games = vec![game("b", "B", Some("db"), true), game("a", "A", Some("da"), false)];
    let merged = merge_user_and_game_achievements(&players, &games).unwrap();
    assert_eq!(
        merged,
        vec![
            achievement("a", "A", Some("da"), false, true, Some(5)),
            achievement("b", "B", Some("db"), true, false, None),
        ]
    );
}

#[test]
fn merge_of_lists_that_share_no_identifier_holds_each_side_alone() {
    let players = vec![player("a", true, Some(1)), player("b", false, None)];
    let games = vec![game("c", "C", None, true), game("d", "D", Some("dd"), false)];
    let merged = merge_user_and_game_achievements(&players, &games).unwrap();
    assert_eq!(
        merged,
        vec![
            achievement("a", "", None, false, true, Some(1)),
            achievement("c", "C", None, true, false, None),
            achievement("b", "", None, false, false, None),
            achievement("d", "D", Some("dd"), false, false, None),
        ]
    );
}

#[test]
fn merge_of_two_against_three_returns_no_list() {
    let players = vec![player("a", false, None), player("b", false, None)];
    let games = vec![
        game("a", "", None, false),
        game("b", "", None, false),
        game("c", "", None, false),
    ];
    let outcome = merge_user_and_game_achievements(&players, &games);
    assert!(outcome.is_err());
    let message = outcome.unwrap_err().message();
    assert!(message.contains("2"));
    assert!(message.contains("3"));
}

#[test]
fn map_without_entries_has_no_values() {
    assert_eq!(AchievementMap::new().into_values(), vec![]);
}

#[test]
fn map_enters_an_unknown_player_record_alone() {
    let mut map = AchievementMap::new();
    map.upsert_player(&player("a", true, Some(3)));
    assert_eq!(map.into_values(), vec![achievement("a", "", None, false, true, Some(3))]);
}

#[test]
fn map_replaces_the_progress_of_a_known_identifier() {
    let mut map = AchievementMap::new();
    map.upsert_player(&player("a", false, None));
    map.upsert_game(&game("a", "A", Some("d"), true));
    map.upsert_player(&player("a", true, Some(9)));
    assert_eq!(map.into_values(), vec![achievement("a", "A", Some("d"), true, true, Some(9))]);
}

#[test]
fn map_enters_an_unknown_game_record_alone() {
    let mut map = AchievementMap::new();
    map.upsert_game(&game("b", "B", Some("d"), true));
    assert_eq!(map.into_values(), vec![achievement("b", "B", Some("d"), true, false, None)]);
}

#[test]
fn map_replaces_the_description_of_a_known_identifier() {
    let mut map = AchievementMap::new();
    map.upsert_player(&player("a", true, Some(4)));
    map.upsert_game(&game("a", "A1", Some("d"), false));
    map.upsert_game(&game("a", "A2", None, true));
    assert_eq!(map.into_values(), vec![achievement("a", "A2", None, true, true, Some(4))]);
}

#[test]
fn map_keeps_the_order_in_which_identifiers_entered() {
    let mut map = AchievementMap::new();
    map.upsert_player(&player("z", true, None));
    map.upsert_player(&player("a", false, None));
    map.upsert_player(&player("m", true, Some(1)));
    map.upsert_player(&player("a", true, Some(2)));
    assert_eq!(
        map.into_values(),
        vec![
            achievement("z", "", None, false, true, None),
            achievement("a", "", None, false, true, Some(2)),
            achievement("m", "", None, false, true, Some(1)),
        ]
    );
}
