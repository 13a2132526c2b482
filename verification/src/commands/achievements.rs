//! The achievements of a game of the user's choice: the merge of the two
//! lists that the service gives, and the retrieval that leads to it.

use vstd::prelude::*;
use vstd::pervasive::unreached;
use vstd::string::StringExecFns;
use crate::commands::merge::{
    merge_keys, merge_outcome, merge_table, merged_achievements, AchievementMap,
};
use crate::error::{outcome_view, Error, ErrorView, Failure, FailureView};
use crate::settings::{Settings, SettingsView};
use crate::steam::{
    game_achievements_outcome, game_achievements_request, user_game_achievements_outcome,
    user_game_achievements_request, user_games_outcome, user_games_request, Achievement,
    AchievementView, Client, Fault, FaultView, GameAchievement, GameAchievementView,
    GameAchievementsResponse, PlayerGameAchievement, PlayerGameAchievementView,
    PlayerGameAchievementsResponse, Request, RequestView, UserGame, UserGameView, UserGamesResponse,
};

verus! {

/// Unites two lists of the same length, position by position, into one
/// achievement for each identifier, in the order in which the identifiers
/// first occur.
fn merge_positions(
    user_achievements: &Vec<PlayerGameAchievement>,
    game_achievements: &Vec<GameAchievement>,
) -> (merged: Vec<Achievement>)
    requires
        user_achievements.len() == game_achievements.len(),
    ensures
        merged.deep_view() == merged_achievements(
            user_achievements.deep_view(),
            game_achievements.deep_view(),
        ),
{
    let ghost players = user_achievements.deep_view();
    let ghost games = game_achievements.deep_view();
    let n = user_achievements.len();
    let mut api_name_to_achievement_mapping = AchievementMap::new();
    let mut i: usize = 0;
    while i < n
        invariant
            i <= n,
            n == user_achievements.len(),
            n == game_achievements.len(),
            players == user_achievements.deep_view(),
            games == game_achievements.deep_view(),
            api_name_to_achievement_mapping.wf(),
            api_name_to_achievement_mapping.keys() == merge_keys(players, games, i as nat),
            api_name_to_achievement_mapping@ == merge_table(players, games, i as nat),
        decreases n - i,
    {
        let player = &user_achievements[i];
        let game = &game_achievements[i];
        assert(players[i as int] == player@);
        assert(games[i as int] == game@);
        api_name_to_achievement_mapping.upsert_player(player);
        api_name_to_achievement_mapping.upsert_game(game);
        i += 1;
    }
    api_name_to_achievement_mapping.into_values()
}

/// Unites the player's records with the game's into one achievement for
/// each identifier, in the order in which the identifiers first occur.
/// Lists that differ in length are not united: the failure reports both
/// lengths.
pub fn merge_user_and_game_achievements(
    user_achievements: &Vec<PlayerGameAchievement>,
    game_achievements: &Vec<GameAchievement>,
) -> (outcome: Result<Vec<Achievement>, Error>)
    ensures
        outcome_view(outcome) == merge_outcome(
            user_achievements.deep_view(),
            game_achievements.deep_view(),
        ),
{
    if user_achievements.len() != game_achievements.len() {
        return Err(
            Error::new(
                Failure::SizeMismatch {
                    player_achievements: user_achievements.len(),
                    game_achievements: game_achievements.len(),
                },
            ),
        );
    }
    Ok(merge_positions(user_achievements, game_achievements))
}

/// What the retrieval waits for.
#[derive(Debug, PartialEq, Eq)]
pub enum Phase {
    /// The games that the user owns have been asked for.
    AwaitGames,
    /// The user has been asked to choose one of `games`.
    AwaitSelection { games: Vec<UserGame> },
    /// The player's achievements in the game `game_id` have been asked for.
    AwaitPlayerAchievements { game_id: u32 },
    /// The player's achievements are here and the game's have been asked
    /// for.
    AwaitGameAchievements { player_achievements: Vec<PlayerGameAchievement> },
    /// The retrieval has ended.
    Done,
}

/// The mathematical content of a [`Phase`].
pub enum PhaseView {
    AwaitGames,
    AwaitSelection { games: Seq<UserGameView> },
    AwaitPlayerAchievements { game_id: u32 },
    AwaitGameAchievements { player_achievements: Seq<PlayerGameAchievementView> },
    Done,
}

impl View for Phase {
    type V = PhaseView;

    open spec fn view(&self) -> PhaseView {
        match self {
            Phase::AwaitGames => PhaseView::AwaitGames,
            Phase::AwaitSelection { games } => PhaseView::AwaitSelection { games: games.deep_view() },
            Phase::AwaitPlayerAchievements { game_id } => PhaseView::AwaitPlayerAchievements {
                game_id: *game_id,
            },
            Phase::AwaitGameAchievements { player_achievements } => PhaseView::AwaitGameAchievements {
                player_achievements: player_achievements.deep_view(),
            },
            Phase::Done => PhaseView::Done,
        }
    }
}

/// One retrieval of a user's achievements in a game of the user's choice:
/// whose they are, the key for the service, and how far it has come.
#[derive(Debug, PartialEq, Eq)]
pub struct Retrieval {
    pub api_key: String,
    pub user_id: String,
    pub phase: Phase,
}

/// The mathematical content of a [`Retrieval`].
pub struct RetrievalView {
    pub api_key: Seq<char>,
    pub user_id: Seq<char>,
    pub phase: PhaseView,
}

impl View for Retrieval {
    type V = RetrievalView;

    open spec fn view(&self) -> RetrievalView {
        RetrievalView { api_key: self.api_key@, user_id: self.user_id@, phase: self.phase@ }
    }
}

/// What the retrieval wants done next.
#[derive(Debug, PartialEq, Eq)]
pub enum Action {
    /// Send the request and hand back the owned-games reply.
    ListOwnedGames(Request),
    /// Let the user choose one of `items` and hand back its index.
    ChooseGame { prompt: String, items: Vec<String> },
    /// Send the request and hand back the player-achievements reply.
    ListPlayerAchievements(Request),
    /// Send the request and hand back the schema reply.
    ListGameAchievements(Request),
    /// Nothing more: this is the result.
    Finish(Result<Vec<Achievement>, Error>),
}

/// The mathematical content of an [`Action`].
pub enum ActionView {
    ListOwnedGames(RequestView),
    ChooseGame { prompt: Seq<char>, items: Seq<Seq<char>> },
    ListPlayerAchievements(RequestView),
    ListGameAchievements(RequestView),
    Finish(Result<Seq<AchievementView>, ErrorView>),
}

impl View for Action {
    type V = ActionView;

    open spec fn view(&self) -> ActionView {
        match self {
            Action::ListOwnedGames(request) => ActionView::ListOwnedGames(request@),
            Action::ChooseGame { prompt, items } => ActionView::ChooseGame {
                prompt: prompt@,
                items: items.deep_view(),
            },
            Action::ListPlayerAchievements(request) => ActionView::ListPlayerAchievements(request@),
            Action::ListGameAchievements(request) => ActionView::ListGameAchievements(request@),
            Action::Finish(outcome) => ActionView::Finish(outcome_view(*outcome)),
        }
    }
}

/// What came of an action.
#[derive(Debug, PartialEq, Eq)]
pub enum Event {
    /// The owned-games reply, or why there is none.
    OwnedGames(Result<UserGamesResponse, Fault>),
    /// The index that the user chose, or `None` where the user chose
    /// nothing.
    Selection(Option<usize>),
    /// The player-achievements reply, or why there is none.
    PlayerAchievements(Result<PlayerGameAchievementsResponse, Fault>),
    /// The schema reply, or why there is none.
    GameAchievements(Result<GameAchievementsResponse, Fault>),
}

/// The mathematical content of an [`Event`].
pub enum EventView {
    OwnedGames(Result<Seq<UserGameView>, FaultView>),
    Selection(Option<usize>),
    PlayerAchievements(Result<Seq<PlayerGameAchievementView>, FaultView>),
    GameAchievements(Result<Seq<GameAchievementView>, FaultView>),
}

impl View for Event {
    type V = EventView;

    open spec fn view(&self) -> EventView {
        match self {
            Event::OwnedGames(reply) => EventView::OwnedGames(outcome_view(*reply)),
            Event::Selection(choice) => EventView::Selection(*choice),
            Event::PlayerAchievements(reply) => EventView::PlayerAchievements(outcome_view(*reply)),
            Event::GameAchievements(reply) => EventView::GameAchievements(outcome_view(*reply)),
        }
    }
}

/// The names of the games, in their order.
pub open spec fn game_names(games: Seq<UserGameView>) -> Seq<Seq<char>> {
    Seq::new(games.len(), |i: int| games[i].name)
}

/// What a merge comes to for the one who asked for the achievements: a
/// failure gets the remark that it came from the merge.
pub open spec fn retrieval_outcome(
    players: Seq<PlayerGameAchievementView>,
    games: Seq<GameAchievementView>,
) -> Result<Seq<AchievementView>, ErrorView> {
    match merge_outcome(players, games) {
        Ok(achievements) => Ok(achievements),
        Err(error) => Err(error.with_context("Failed to merge player and game achievements"@)),
    }
}

impl RetrievalView {
    /// The retrieval in another phase.
    pub open spec fn in_phase(self, phase: PhaseView) -> RetrievalView {
        RetrievalView { api_key: self.api_key, user_id: self.user_id, phase }
    }

    /// The retrieval at its end, with its result.
    pub open spec fn finish(self, outcome: Result<Seq<AchievementView>, ErrorView>) -> (
        RetrievalView,
        ActionView,
    ) {
        (self.in_phase(PhaseView::Done), ActionView::Finish(outcome))
    }

    /// Whether `event` is what the retrieval waits for. A selection has to
    /// be the index of one of the games offered.
    pub open spec fn accepts(self, event: EventView) -> bool {
        match (self.phase, event) {
            (PhaseView::AwaitGames, EventView::OwnedGames(_)) => true,
            (PhaseView::AwaitSelection { games }, EventView::Selection(choice)) => match choice {
                Some(index) => index < games.len(),
                None => true,
            },
            (PhaseView::AwaitPlayerAchievements { .. }, EventView::PlayerAchievements(_)) => true,
            (PhaseView::AwaitGameAchievements { .. }, EventView::GameAchievements(_)) => true,
            _ => false,
        }
    }

    /// The retrieval after `event`, and what it wants done next.
    pub open spec fn step(self, event: EventView) -> (RetrievalView, ActionView)
        recommends
            self.accepts(event),
    {
        match (self.phase, event) {
            (PhaseView::AwaitGames, EventView::OwnedGames(reply)) => match user_games_outcome(reply) {
                Ok(games) => (
                    self.in_phase(PhaseView::AwaitSelection { games }),
                    ActionView::ChooseGame {
                        prompt: "What game do you want to view achievements for?"@,
                        items: game_names(games),
                    },
                ),
                Err(error) => self.finish(Err(error.with_context("Failed to retrieve user's games"@))),
            },
            (PhaseView::AwaitSelection { games }, EventView::Selection(choice)) => match choice {
                Some(index) => (
                    self.in_phase(
                        PhaseView::AwaitPlayerAchievements { game_id: games[index as int].id },
                    ),
                    ActionView::ListPlayerAchievements(
                        user_game_achievements_request(
                            self.api_key,
                            self.user_id,
                            games[index as int].id,
                        ),
                    ),
                ),
                None => self.finish(Err(ErrorView::new(FailureView::NoSelection))),
            },
            (
                PhaseView::AwaitPlayerAchievements { game_id },
                EventView::PlayerAchievements(reply),
            ) => match user_game_achievements_outcome(reply) {
                Ok(player_achievements) => (
                    self.in_phase(PhaseView::AwaitGameAchievements { player_achievements }),
                    ActionView::ListGameAchievements(game_achievements_request(self.api_key, game_id)),
                ),
                Err(error) => self.finish(
                    Err(error.with_context("Failed to retrieve user's achievement for game"@)),
                ),
            },
            (
                PhaseView::AwaitGameAchievements { player_achievements },
                EventView::GameAchievements(reply),
            ) => match game_achievements_outcome(reply) {
                Ok(game_achievements) => self.finish(
                    retrieval_outcome(player_achievements, game_achievements),
                ),
                Err(error) => self.finish(
                    Err(error.with_context("Failed to get list of game achievements"@)),
                ),
            },
            _ => arbitrary(),
        }
    }
}

/// The retrieval at its start, and its first wish: the games that the user
/// of the configuration owns.
pub open spec fn start(settings: SettingsView) -> (RetrievalView, ActionView) {
    (
        RetrievalView {
            api_key: settings.steam.api_key,
            user_id: settings.steam.user_id,
            phase: PhaseView::AwaitGames,
        },
        ActionView::ListOwnedGames(
            user_games_request(settings.steam.api_key, settings.steam.user_id),
        ),
    )
}

/// The names of the games, in their order: what the user chooses from.
pub fn list_game_names(games: &Vec<UserGame>) -> (names: Vec<String>)
    ensures
        names.deep_view() == game_names(games.deep_view()),
{
    let mut names: Vec<String> = Vec::new();
    let mut i: usize = 0;
    while i < games.len()
        invariant
            i <= games.len(),
            names.len() == i,
            forall|j: int| 0 <= j < i ==> names[j]@ == games[j].name@,
        decreases games.len() - i,
    {
        names.push(games[i].name.clone());
        i += 1;
    }
    assert(names.deep_view() =~= game_names(games.deep_view()));
    names
}

/// Starts the retrieval of the achievements of the configured user in a
/// game of the user's choice. What comes back is the retrieval and the
/// first thing it wants done; [`Retrieval::step`] takes what came of that
/// and says what is next, until the action is [`Action::Finish`].
pub fn get_achievements(settings: &Settings) -> (begun: (Retrieval, Action))
    requires
        settings.steam.user_id@.len() > 0,
    ensures
        begun.0@ == start(settings@).0,
        begun.1@ == start(settings@).1,
{
    let client = Client { api_key: settings.steam.api_key.as_str() };
    let request = client.user_games_request(settings.steam.user_id.as_str());
    (
        Retrieval {
            api_key: settings.steam.api_key.clone(),
            user_id: settings.steam.user_id.clone(),
            phase: Phase::AwaitGames,
        },
        Action::ListOwnedGames(request),
    )
}

impl Retrieval {
    fn finish(api_key: String, user_id: String, outcome: Result<Vec<Achievement>, Error>) -> (ended: (
        Retrieval,
        Action,
    ))
        ensures
            ended.0@ == (RetrievalView { api_key: api_key@, user_id: user_id@, phase: PhaseView::Done }),
            ended.1@ == ActionView::Finish(outcome_view(outcome)),
    {
        (Retrieval { api_key, user_id, phase: Phase::Done }, Action::Finish(outcome))
    }

    /// Whether `event` is what the retrieval waits for.
    pub fn accepts(&self, event: &Event) -> (accepted: bool)
        ensures
            accepted == self@.accepts(event@),
    {
        match (&self.phase, event) {
            (Phase::AwaitGames, Event::OwnedGames(_)) => true,
            (Phase::AwaitSelection { games }, Event::Selection(choice)) => match choice {
                Some(index) => *index < games.len(),
                None => true,
            },
            (Phase::AwaitPlayerAchievements { .. }, Event::PlayerAchievements(_)) => true,
            (Phase::AwaitGameAchievements { .. }, Event::GameAchievements(_)) => true,
            _ => false,
        }
    }

    /// Takes what came of the last action and says what is to be done
    /// next.
    pub fn step(self, event: Event) -> (next: (Retrieval, Action))
        requires
            self@.accepts(event@),
        ensures
            next.0@ == self@.step(event@).0,
            next.1@ == self@.step(event@).1,
    {
        let Retrieval { api_key, user_id, phase } = self;
        match (phase, event) {
            (Phase::AwaitGames, Event::OwnedGames(reply)) => {
                let client = Client { api_key: api_key.as_str() };
                match client.get_user_games(reply) {
                    Ok(games) => {
                        let items = list_game_names(&games);
                        (
                            Retrieval { api_key, user_id, phase: Phase::AwaitSelection { games } },
                            Action::ChooseGame {
                                prompt: String::from_str(
                                    "What game do you want to view achievements for?",
                                ),
                                items,
                            },
                        )
                    },
                    Err(error) => Self::finish(
                        api_key,
                        user_id,
                        Err(error.with_context("Failed to retrieve user's games")),
                    ),
                }
            },
            (Phase::AwaitSelection { games }, Event::Selection(choice)) => match choice {
                Some(index) => {
                    let game_id = games[index].id;
                    let client = Client { api_key: api_key.as_str() };
                    let request = client.user_game_achievements_request(user_id.as_str(), game_id);
                    (
                        Retrieval {
                            api_key,
                            user_id,
                            phase: Phase::AwaitPlayerAchievements { game_id },
                        },
                        Action::ListPlayerAchievements(request),
                    )
                },
                None => Self::finish(api_key, user_id, Err(Error::new(Failure::NoSelection))),
            },
            (Phase::AwaitPlayerAchievements { game_id }, Event::PlayerAchievements(reply)) => {
                let client = Client { api_key: api_key.as_str() };
                match client.get_user_game_achievements(reply) {
                    Ok(player_achievements) => {
                        let request = client.game_achievements_request(game_id);
                        (
                            Retrieval {
                                api_key,
                                user_id,
                                phase: Phase::AwaitGameAchievements { player_achievements },
                            },
                            Action::ListGameAchievements(request),
                        )
                    },
                    Err(error) => Self::finish(
                        api_key,
                        user_id,
                        Err(error.with_context("Failed to retrieve user's achievement for game")),
                    ),
                }
            },
            (
                Phase::AwaitGameAchievements { player_achievements },
                Event::GameAchievements(reply),
            ) => {
                let client = Client { api_key: api_key.as_str() };
                match client.get_game_achievements(reply) {
                    Ok(game_achievements) => {
                        let outcome = match merge_user_and_game_achievements(
                            &player_achievements,
                            &game_achievements,
                        ) {
                            Ok(achievements) => Ok(achievements),
                            Err(error) => Err(
                                error.with_context("Failed to merge player and game achievements"),
                            ),
                        };
                        Self::finish(api_key, user_id, outcome)
                    },
                    Err(error) => Self::finish(
                        api_key,
                        user_id,
                        Err(error.with_context("Failed to get list of game achievements")),
                    ),
                }
            },
            _ => unreached(),
        }
    }
}

/// Where the user owns no game, the chooser is offered nothing, the only
/// selection that the retrieval accepts is none at all, and after it the
/// retrieval ends with the failure that no game was chosen.
pub proof fn lemma_empty_library(retrieval: RetrievalView, choice: Option<usize>)
    requires
        retrieval.phase == PhaseView::AwaitGames,
    ensures
        ({
            let asked = retrieval.step(EventView::OwnedGames(Ok(Seq::empty())));
            &&& asked.1 matches ActionView::ChooseGame { items, .. } && items.len() == 0
            &&& asked.0.accepts(EventView::Selection(choice)) <==> choice is None
            &&& asked.0.step(EventView::Selection(None)).1 == ActionView::Finish(
                Err(ErrorView::new(FailureView::NoSelection)),
            )
        }),
{
}

} // verus!
