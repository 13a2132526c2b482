use achievement_hunter::commands::achievements::{
    get_achievements, list_game_names, Action, Event, Phase, Retrieval,
};
use achievement_hunter::error::{Error, Failure};
use achievement_hunter::settings::{Settings, Steam};
use achievement_hunter::steam::{
    Achievement, Fault, GameAchievement, GameAchievementsResponse, GameData, GameStats,
    PlayerGameAchievement, PlayerGameAchievementsResponse, PlayerStats, Request, UserGame,
    UserGames, UserGamesResponse,
};

fn settings() -> Settings {
    Settings { steam: Steam { api_key: "KEY".to_string(), user_id: "7656".to_string() } }
}

fn pair(name: &str, value: &str) -> (String, String) {
    (name.to_string(), value.to_string())
}

fn games() -> Vec<UserGame> {
    vec![
        UserGame { id: 1510, name: "Uplink".to_string(), last_playtime: 1400429710 },
        UserGame { id: 1817070, name: "Spider-Man".to_string(), last_playtime: 0 },
    ]
}

fn games_reply(games: Vec<UserGame>) -> Event {
    Event::OwnedGames(Ok(UserGamesResponse { response: UserGames { games } }))
}

fn player_reply(achievements: Vec<PlayerGameAchievement>) -> Event {
    Event::PlayerAchievements(Ok(PlayerGameAchievementsResponse {
        player_stats: PlayerStats {
            user_id: "7656".to_string(),
            game_name: "Spider-Man".to_string(),
            achievements,
        },
    }))
}

fn schema_reply(achievements: Vec<GameAchievement>) -> Event {
    Event::GameAchievements(Ok(GameAchievementsResponse {
        game: GameData { stats: GameStats { achievements } },
    }))
}

fn in_phase(phase: Phase) -> Retrieval {
    Retrieval { api_key: "KEY".to_string(), user_id: "7656".to_string(), phase }
}

fn progress() -> Vec<PlayerGameAchievement> {
    vec![PlayerGameAchievement {
        achievement_api_name: "a".to_string(),
        achieved: true,
        achieved_at: Some(1000),
    }]
}

fn schema() -> Vec<GameAchievement> {
    vec![GameAchievement {
        api_name: "a".to_string(),
        display_name: "Alpha".to_string(),
        description: Some("desc".to_string()),
        hidden: false,
    }]
}

#[test]
fn retrieval_begins_with_the_owned_games() {
    let (retrieval, action) = get_achievements(&settings());
    assert_eq!(retrieval, in_phase(Phase::AwaitGames));
    assert_eq!(
        action,
        Action::ListOwnedGames(Request {
            url: "http://api.steampowered.com/IPlayerService/GetOwnedGames/v0001".to_string(),
            query: vec![pair("key", "KEY"), pair("steamid", "7656"), pair("include_appinfo", "true")],
        })
    );
}

#[test]
fn retrieval_runs_to_the_merged_achievements() {
    let (retrieval, _) = get_achievements(&settings());

    let event = games_reply(games());
    assert!(retrieval.accepts(&event));
    let (retrieval, action) = retrieval.step(event);
    assert_eq!(retrieval, in_phase(Phase::AwaitSelection { games: games() }));
    assert_eq!(
        action,
        Action::ChooseGame {
            prompt: "What game do you want to view achievements for?".to_string(),
            items: vec!["Uplink".to_string(), "Spider-Man".to_string()],
        }
    );

    let event = Event::Selection(Some(1));
    assert!(retrieval.accepts(&event));
    let (retrieval, action) = retrieval.step(event);
    assert_eq!(retrieval, in_phase(Phase::AwaitPlayerAchievements { game_id: 1817070 }));
    assert_eq!(
        action,
        Action::ListPlayerAchievements(Request {
            url: "http://api.steampowered.com/ISteamUserStats/GetPlayerAchievements/v0001"
                .to_string(),
            query: vec![pair("key", "KEY"), pair("steamid", "7656"), pair("appid", "1817070")],
        })
    );

    let event = player_reply(progress());
    assert!(retrieval.accepts(&event));
    let (retrieval, action) = retrieval.step(event);
    assert_eq!(
        retrieval,
        in_phase(Phase::AwaitGameAchievements { player_achievements: progress() })
    );
    assert_eq!(
        action,
        Action::ListGameAchievements(Request {
            url: "https://api.steampowered.com/ISteamUserStats/GetSchemaForGame/v2/".to_string(),
            query: vec![pair("key", "KEY"), pair("appid", "1817070")],
        })
    );

    let event = schema_reply(schema());
    assert!(retrieval.accepts(&event));
    let (retrieval, action) = retrieval.step(event);
    assert_eq!(retrieval, in_phase(Phase::Done));
    assert_eq!(
        action,
        Action::Finish(Ok(vec![Achievement {
            api_name: "a".to_string(),
            display_name: "Alpha".to_string(),
            hidden: false,
            description: Some("desc".to_string()),
            achieved: true,
            achieved_at: Some(1000),
        }]))
    );
}

#[test]
fn retrieval_of_an_empty_library_offers_nothing_and_ends_without_selection() {
    let (retrieval, _) = get_achievements(&settings());
    let (retrieval, action) = retrieval.step(games_reply(vec![]));
    assert_eq!(
        action,
        Action::ChooseGame {
            prompt: "What game do you want to view achievements for?".to_string(),
            items: vec![],
        }
    );
    assert!(!retrieval.accepts(&Event::Selection(Some(0))));
    assert!(retrieval.accepts(&Event::Selection(None)));
    let (retrieval, action) = retrieval.step(Event::Selection(None));
    assert_eq!(retrieval, in_phase(Phase::Done));
    assert_eq!(action, Action::Finish(Err(Error { failure: Failure::NoSelection, context: vec![] })));
}

#[test]
fn retrieval_ends_where_the_user_chooses_nothing() {
    let retrieval = in_phase(Phase::AwaitSelection { games: games() });
    let (retrieval, action) = retrieval.step(Event::Selection(None));
    assert_eq!(retrieval, in_phase(Phase::Done));
    match action {
        Action::Finish(Err(error)) => {
            assert_eq!(error.failure, Failure::NoSelection);
            assert_eq!(error.message(), "You did not choose a game.");
        },
        other => panic!("unexpected action {:?}", other),
    }
}

#[test]
fn retrieval_accepts_only_what_it_waits_for() {
    let waiting = in_phase(Phase::AwaitSelection { games: games() });
    assert!(waiting.accepts(&Event::Selection(Some(0))));
    assert!(waiting.accepts(&Event::Selection(Some(1))));
    assert!(!waiting.accepts(&Event::Selection(Some(2))));
    assert!(!waiting.accepts(&games_reply(games())));
    assert!(!waiting.accepts(&player_reply(progress())));
    assert!(!waiting.accepts(&schema_reply(schema())));

    assert!(!in_phase(Phase::AwaitGames).accepts(&Event::Selection(None)));
    assert!(!in_phase(Phase::AwaitPlayerAchievements { game_id: 1 }).accepts(&schema_reply(schema())));
    assert!(!in_phase(Phase::AwaitGameAchievements { player_achievements: progress() })
        .accepts(&player_reply(progress())));

    let done = in_phase(Phase::Done);
    assert!(!done.accepts(&Event::Selection(None)));
    assert!(!done.accepts(&games_reply(games())));
    assert!(!done.accepts(&player_reply(progress())));
    assert!(!done.accepts(&schema_reply(schema())));
}

#[test]
fn retrieval_fails_where_the_games_do_not_come() {
    let (retrieval, action) = in_phase(Phase::AwaitGames)
        .step(Event::OwnedGames(Err(Fault::Request { detail: "no route".to_string() })));
    assert_eq!(retrieval, in_phase(Phase::Done));
    assert_eq!(
        action,
        Action::Finish(Err(Error {
            failure: Failure::Request { detail: "no route".to_string() },
            context: vec![
                "Steam API request failed".to_string(),
                "Failed to retrieve user's games".to_string(),
            ],
        }))
    );
}

#[test]
fn retrieval_fails_where_the_player_achievements_do_not_come() {
    let (retrieval, action) = in_phase(Phase::AwaitPlayerAchievements { game_id: 1510 })
        .step(Event::PlayerAchievements(Err(Fault::Decode { detail: "no field".to_string() })));
    assert_eq!(retrieval, in_phase(Phase::Done));
    assert_eq!(
        action,
        Action::Finish(Err(Error {
            failure: Failure::Decode { detail: "no field".to_string() },
            context: vec![
                "Converting player game achievements response failed".to_string(),
                "Failed to retrieve user's achievement for game".to_string(),
            ],
        }))
    );
}

#[test]
fn retrieval_fails_where_the_schema_does_not_come() {
    let (retrieval, action) =
        in_phase(Phase::AwaitGameAchievements { player_achievements: progress() })
            .step(Event::GameAchievements(Err(Fault::Request { detail: "reset".to_string() })));
    assert_eq!(retrieval, in_phase(Phase::Done));
    assert_eq!(
        action,
        Action::Finish(Err(Error {
            failure: Failure::Request { detail: "reset".to_string() },
            context: vec![
                "Steam API request failed".to_string(),
                "Failed to get list of game achievements".to_string(),
            ],
        }))
    );
}

#[test]
fn retrieval_fails_where_the_lists_differ_in_length() {
    let (retrieval, action) =
        in_phase(Phase::AwaitGameAchievements { player_achievements: progress() })
            .step(schema_reply(vec![]));
    assert_eq!(retrieval, in_phase(Phase::Done));
    assert_eq!(
        action,
        Action::Finish(Err(Error {
            failure: Failure::SizeMismatch { player_achievements: 1, game_achievements: 0 },
            context: vec!["Failed to merge player and game achievements".to_string()],
        }))
    );
}

#[test]
fn game_names_follow_the_games() {
    assert_eq!(list_game_names(&games()), vec!["Uplink", "Spider-Man"]);
    assert_eq!(list_game_names(&vec![]), Vec::<String>::new());
}
