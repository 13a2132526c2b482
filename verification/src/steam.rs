//! The records of the game-data service and the achievement that unites them.

use vstd::prelude::*;
use vstd::string::StringExecFns;
use crate::error::{outcome_view, Error, ErrorView, Failure, FailureView};
use crate::text::{decimal, decimal_text};

verus! {

/// A flag byte that is neither `0` nor `1`.
#[derive(Clone, Copy, Debug, PartialEq, Eq, Structural)]
pub struct UnknownFlag {
    pub value: u8,
}

/// What a flag byte of the service stands for.
pub open spec fn flag_meaning(value: u8) -> Result<bool, UnknownFlag> {
    if value == 1 {
        Ok(true)
    } else if value == 0 {
        Ok(false)
    } else {
        Err(UnknownFlag { value })
    }
}

/// Reads a flag that the service encodes as the number `1` or `0`.
pub fn deserialize_u8_to_bool(value: u8) -> (flag: Result<bool, UnknownFlag>)
    ensures
        flag == flag_meaning(value),
{
    match value {
        1 => Ok(true),
        0 => Ok(false),
        _ => Err(UnknownFlag { value }),
    }
}

/// What a game defines for one achievement, whoever plays.
#[derive(Debug, PartialEq, Eq)]
pub struct GameAchievement {
    pub description: Option<String>,
    pub display_name: String,
    pub hidden: bool,
    pub api_name: String,
}

/// The mathematical content of a [`GameAchievement`].
pub struct GameAchievementView {
    pub description: Option<Seq<char>>,
    pub display_name: Seq<char>,
    pub hidden: bool,
    pub api_name: Seq<char>,
}

impl View for GameAchievement {
    type V = GameAchievementView;

    open spec fn view(&self) -> GameAchievementView {
        GameAchievementView {
            description: self.description.deep_view(),
            display_name: self.display_name@,
            hidden: self.hidden,
            api_name: self.api_name@,
        }
    }
}

impl DeepView for GameAchievement {
    type V = GameAchievementView;

    open spec fn deep_view(&self) -> GameAchievementView {
        self@
    }
}

/// What one player has reached of one achievement. `achieved_at` counts
/// seconds since the Unix epoch.
#[derive(Debug, PartialEq, Eq)]
pub struct PlayerGameAchievement {
    pub achievement_api_name: String,
    pub achieved: bool,
    pub achieved_at: Option<i64>,
}

/// The mathematical content of a [`PlayerGameAchievement`].
pub struct PlayerGameAchievementView {
    pub achievement_api_name: Seq<char>,
    pub achieved: bool,
    pub achieved_at: Option<i64>,
}

impl View for PlayerGameAchievement {
    type V = PlayerGameAchievementView;

    open spec fn view(&self) -> PlayerGameAchievementView {
        PlayerGameAchievementView {
            achievement_api_name: self.achievement_api_name@,
            achieved: self.achieved,
            achieved_at: self.achieved_at,
        }
    }
}

impl DeepView for PlayerGameAchievement {
    type V = PlayerGameAchievementView;

    open spec fn deep_view(&self) -> PlayerGameAchievementView {
        self@
    }
}

/// One achievement as the player sees it: the game's description of it
/// together with the player's progress.
#[derive(Debug, PartialEq, Eq)]
pub struct Achievement {
    pub api_name: String,
    pub display_name: String,
    pub hidden: bool,
    pub description: Option<String>,
    pub achieved: bool,
    pub achieved_at: Option<i64>,
}

/// The mathematical content of an [`Achievement`].
pub struct AchievementView {
    pub api_name: Seq<char>,
    pub display_name: Seq<char>,
    pub hidden: bool,
    pub description: Option<Seq<char>>,
    pub achieved: bool,
    pub achieved_at: Option<i64>,
}

impl AchievementView {
    /// The achievement with its identity and description replaced by the
    /// game's; the progress stays.
    pub open spec fn merge_game_achievement(self, achievement: GameAchievementView) -> AchievementView {
        AchievementView {
            api_name: achievement.api_name,
            display_name: achievement.display_name,
            hidden: achievement.hidden,
            description: achievement.description,
            achieved: self.achieved,
            achieved_at: self.achieved_at,
        }
    }

    /// The achievement with its identity and progress replaced by the
    /// player's; the description stays.
    pub open spec fn merge_player_achievement(
        self,
        achievement: PlayerGameAchievementView,
    ) -> AchievementView {
        AchievementView {
            api_name: achievement.achievement_api_name,
            display_name: self.display_name,
            hidden: self.hidden,
            description: self.description,
            achieved: achievement.achieved,
            achieved_at: achievement.achieved_at,
        }
    }

    /// The achievement known from the game alone: nobody has reached it.
    pub open spec fn from_game(achievement: GameAchievementView) -> AchievementView {
        AchievementView {
            api_name: achievement.api_name,
            display_name: achievement.display_name,
            hidden: achievement.hidden,
            description: achievement.description,
            achieved: false,
            achieved_at: None,
        }
    }

    /// The achievement known from the player alone: it has no name to show,
    /// no description, and is not hidden.
    pub open spec fn from_player(achievement: PlayerGameAchievementView) -> AchievementView {
        AchievementView {
            api_name: achievement.achievement_api_name,
            display_name: Seq::empty(),
            hidden: false,
            description: None,
            achieved: achievement.achieved,
            achieved_at: achievement.achieved_at,
        }
    }
}

impl View for Achievement {
    type V = AchievementView;

    open spec fn view(&self) -> AchievementView {
        AchievementView {
            api_name: self.api_name@,
            display_name: self.display_name@,
            hidden: self.hidden,
            description: self.description.deep_view(),
            achieved: self.achieved,
            achieved_at: self.achieved_at,
        }
    }
}

impl DeepView for Achievement {
    type V = AchievementView;

    open spec fn deep_view(&self) -> AchievementView {
        self@
    }
}

/// A copy of an optional text.
pub fn clone_text(text: &Option<String>) -> (copy: Option<String>)
    ensures
        copy.deep_view() == text.deep_view(),
{
    match text {
        Some(t) => Some(t.clone()),
        None => None,
    }
}

impl Achievement {
    /// Takes identity and description from the game's record and keeps the
    /// progress.
    pub fn merge_game_achievement(&mut self, achievement: &GameAchievement)
        ensures
            final(self)@ == old(self)@.merge_game_achievement(achievement@),
    {
        self.api_name = achievement.api_name.clone();
        self.description = clone_text(&achievement.description);
        self.display_name = achievement.display_name.clone();
        self.hidden = achievement.hidden;
    }

    /// Takes identity and progress from the player's record and keeps the
    /// description.
    pub fn merge_player_achievement(&mut self, achievement: &PlayerGameAchievement)
        ensures
            final(self)@ == old(self)@.merge_player_achievement(achievement@),
    {
        self.api_name = achievement.achievement_api_name.clone();
        self.achieved = achievement.achieved;
        self.achieved_at = achievement.achieved_at;
    }
}

/// What `from` makes is stated over views, by the `ensures` of `from`
/// itself: a text that is made anew has no value that a specification could
/// name beforehand, so `from_spec` is not what `from` is held to.
impl vstd::std_specs::convert::FromSpecImpl<&GameAchievement> for Achievement {
    open spec fn obeys_from_spec() -> bool {
        false
    }

    open spec fn from_spec(achievement: &GameAchievement) -> Achievement {
        Achievement {
            api_name: achievement.api_name,
            display_name: achievement.display_name,
            hidden: achievement.hidden,
            description: achievement.description,
            achieved: false,
            achieved_at: None,
        }
    }
}

impl From<&GameAchievement> for Achievement {
    /// The achievement known from the game alone: nobody has reached it.
    fn from(achievement: &GameAchievement) -> (made: Achievement)
        ensures
            made@ == AchievementView::from_game(achievement@),
    {
        Achievement {
            api_name: achievement.api_name.clone(),
            display_name: achievement.display_name.clone(),
            description: clone_text(&achievement.description),
            hidden: achievement.hidden,
            achieved: false,
            achieved_at: None,
        }
    }
}

/// What `from` makes is stated over views, by the `ensures` of `from`
/// itself; see the conversion from a game's record.
impl vstd::std_specs::convert::FromSpecImpl<&PlayerGameAchievement> for Achievement {
    open spec fn obeys_from_spec() -> bool {
        false
    }

    open spec fn from_spec(achievement: &PlayerGameAchievement) -> Achievement {
        Achievement {
            api_name: achievement.achievement_api_name,
            display_name: arbitrary(),
            hidden: false,
            description: None,
            achieved: achievement.achieved,
            achieved_at: achievement.achieved_at,
        }
    }
}

impl From<&PlayerGameAchievement> for Achievement {
    /// The achievement known from the player alone: it has no name to
    /// show, no description, and is not hidden.
    fn from(achievement: &PlayerGameAchievement) -> (made: Achievement)
        ensures
            made@ == AchievementView::from_player(achievement@),
    {
        Achievement {
            api_name: achievement.achievement_api_name.clone(),
            display_name: String::default(),
            description: None,
            hidden: false,
            achieved: achievement.achieved,
            achieved_at: achievement.achieved_at,
        }
    }
}

/// The game's answer to the question which achievements it defines.
#[derive(Debug, PartialEq, Eq)]
pub struct GameStats {
    pub achievements: Vec<GameAchievement>,
}

/// The game of a schema reply.
#[derive(Debug, PartialEq, Eq)]
pub struct GameData {
    pub stats: GameStats,
}

/// The reply to a request for a game's achievement schema.
#[derive(Debug, PartialEq, Eq)]
pub struct GameAchievementsResponse {
    pub game: GameData,
}

impl DeepView for GameAchievementsResponse {
    type V = Seq<GameAchievementView>;

    open spec fn deep_view(&self) -> Seq<GameAchievementView> {
        self.game.stats.achievements.deep_view()
    }
}

/// A game that the user owns. `last_playtime` counts seconds since the Unix
/// epoch.
#[derive(Debug, PartialEq, Eq)]
pub struct UserGame {
    pub id: u32,
    pub name: String,
    pub last_playtime: i64,
}

/// The mathematical content of a [`UserGame`].
pub struct UserGameView {
    pub id: u32,
    pub name: Seq<char>,
    pub last_playtime: i64,
}

impl View for UserGame {
    type V = UserGameView;

    open spec fn view(&self) -> UserGameView {
        UserGameView { id: self.id, name: self.name@, last_playtime: self.last_playtime }
    }
}

impl DeepView for UserGame {
    type V = UserGameView;

    open spec fn deep_view(&self) -> UserGameView {
        self@
    }
}

/// The games of an owned-games reply.
#[derive(Debug, PartialEq, Eq)]
pub struct UserGames {
    pub games: Vec<UserGame>,
}

/// The reply to a request for the games that a user owns.
#[derive(Debug, PartialEq, Eq)]
pub struct UserGamesResponse {
    pub response: UserGames,
}

impl DeepView for UserGamesResponse {
    type V = Seq<UserGameView>;

    open spec fn deep_view(&self) -> Seq<UserGameView> {
        self.response.games.deep_view()
    }
}

/// A player's progress in one game.
#[derive(Debug, PartialEq, Eq)]
pub struct PlayerStats {
    pub user_id: String,
    pub game_name: String,
    pub achievements: Vec<PlayerGameAchievement>,
}

/// The reply to a request for a player's achievements in a game.
#[derive(Debug, PartialEq, Eq)]
pub struct PlayerGameAchievementsResponse {
    pub player_stats: PlayerStats,
}

impl DeepView for PlayerGameAchievementsResponse {
    type V = Seq<PlayerGameAchievementView>;

    open spec fn deep_view(&self) -> Seq<PlayerGameAchievementView> {
        self.player_stats.achievements.deep_view()
    }
}

/// A read request to the service: where it goes and the parameters of its
/// query, in their order.
#[derive(Debug, PartialEq, Eq)]
pub struct Request {
    pub url: String,
    pub query: Vec<(String, String)>,
}

/// The mathematical content of a [`Request`].
pub struct RequestView {
    pub url: Seq<char>,
    pub query: Seq<(Seq<char>, Seq<char>)>,
}

impl View for Request {
    type V = RequestView;

    open spec fn view(&self) -> RequestView {
        RequestView { url: self.url@, query: self.query.deep_view() }
    }
}

impl DeepView for Request {
    type V = RequestView;

    open spec fn deep_view(&self) -> RequestView {
        self@
    }
}

/// Why a request brought no record.
#[derive(Debug, PartialEq, Eq)]
pub enum Fault {
    /// The request did not get through.
    Request { detail: String },
    /// The reply did not have the expected shape.
    Decode { detail: String },
}

/// The mathematical content of a [`Fault`].
pub enum FaultView {
    Request { detail: Seq<char> },
    Decode { detail: Seq<char> },
}

impl FaultView {
    /// The error that the fault becomes, with the remark that belongs to
    /// its kind.
    pub open spec fn error(self, on_request: Seq<char>, on_decode: Seq<char>) -> ErrorView {
        match self {
            FaultView::Request { detail } => ErrorView::new(FailureView::Request { detail }).with_context(
                on_request,
            ),
            FaultView::Decode { detail } => ErrorView::new(FailureView::Decode { detail }).with_context(
                on_decode,
            ),
        }
    }
}

impl View for Fault {
    type V = FaultView;

    open spec fn view(&self) -> FaultView {
        match self {
            Fault::Request { detail } => FaultView::Request { detail: detail@ },
            Fault::Decode { detail } => FaultView::Decode { detail: detail@ },
        }
    }
}

impl DeepView for Fault {
    type V = FaultView;

    open spec fn deep_view(&self) -> FaultView {
        self@
    }
}

impl Fault {
    /// The error that the fault becomes, with the remark that belongs to
    /// its kind.
    pub fn error(self, on_request: &str, on_decode: &str) -> (error: Error)
        ensures
            error@ == self@.error(on_request@, on_decode@),
    {
        match self {
            Fault::Request { detail } => Error::new(Failure::Request { detail }).with_context(on_request),
            Fault::Decode { detail } => Error::new(Failure::Decode { detail }).with_context(on_decode),
        }
    }
}

/// The request for the achievement schema of the game `game_id`.
pub open spec fn game_achievements_request(api_key: Seq<char>, game_id: u32) -> RequestView {
    RequestView {
        url: "https://api.steampowered.com/ISteamUserStats/GetSchemaForGame/v2/"@,
        query: seq![("key"@, api_key), ("appid"@, decimal_text(game_id as nat))],
    }
}

/// The request for the games that the user `user_id` owns, with their
/// names.
pub open spec fn user_games_request(api_key: Seq<char>, user_id: Seq<char>) -> RequestView {
    RequestView {
        url: "http://api.steampowered.com/IPlayerService/GetOwnedGames/v0001"@,
        query: seq![("key"@, api_key), ("steamid"@, user_id), ("include_appinfo"@, "true"@)],
    }
}

/// The request for what the user `user_id` has reached in the game
/// `game_id`.
pub open spec fn user_game_achievements_request(
    api_key: Seq<char>,
    user_id: Seq<char>,
    game_id: u32,
) -> RequestView {
    RequestView {
        url: "http://api.steampowered.com/ISteamUserStats/GetPlayerAchievements/v0001"@,
        query: seq![
            ("key"@, api_key),
            ("steamid"@, user_id),
            ("appid"@, decimal_text(game_id as nat)),
        ],
    }
}

/// What a schema reply comes to.
pub open spec fn game_achievements_outcome(
    reply: Result<Seq<GameAchievementView>, FaultView>,
) -> Result<Seq<GameAchievementView>, ErrorView> {
    match reply {
        Ok(achievements) => Ok(achievements),
        Err(fault) => Err(
            fault.error(
                "Steam API request failed"@,
                "Converting game achievements response failed"@,
            ),
        ),
    }
}

/// What an owned-games reply comes to.
pub open spec fn user_games_outcome(reply: Result<Seq<UserGameView>, FaultView>) -> Result<
    Seq<UserGameView>,
    ErrorView,
> {
    match reply {
        Ok(games) => Ok(games),
        Err(fault) => Err(
            fault.error("Steam API request failed"@, "Converting user games response failed"@),
        ),
    }
}

/// What a player-achievements reply comes to.
pub open spec fn user_game_achievements_outcome(
    reply: Result<Seq<PlayerGameAchievementView>, FaultView>,
) -> Result<Seq<PlayerGameAchievementView>, ErrorView> {
    match reply {
        Ok(achievements) => Ok(achievements),
        Err(fault) => Err(
            fault.error(
                "Steam player game achievements request failed"@,
                "Converting player game achievements response failed"@,
            ),
        ),
    }
}

/// The user's side of the service: it says what to ask and reads what came
/// back. Every request carries the key.
#[derive(Debug)]
pub struct Client<'a> {
    pub api_key: &'a str,
}

impl<'a> Client<'a> {
    fn create_request(&self, url: &str) -> (request: Request)
        ensures
            request@ == (RequestView { url: url@, query: seq![("key"@, self.api_key@)] }),
    {
        let mut query: Vec<(String, String)> = Vec::new();
        query.push((String::from_str("key"), String::from_str(self.api_key)));
        assert(query.deep_view() =~= seq![("key"@, self.api_key@)]);
        Request { url: String::from_str(url), query }
    }

    /// The request for the achievement schema of the game `game_id`.
    pub fn game_achievements_request(&self, game_id: u32) -> (request: Request)
        ensures
            request@ == game_achievements_request(self.api_key@, game_id),
    {
        let mut request = self.create_request(
            "https://api.steampowered.com/ISteamUserStats/GetSchemaForGame/v2/",
        );
        let ghost before = request.query.deep_view();
        request.query.push((String::from_str("appid"), decimal(game_id as u64)));
        assert(request.query.deep_view() =~= before.push(("appid"@, decimal_text(game_id as nat))));
        assert(request@.query =~= game_achievements_request(self.api_key@, game_id).query);
        request
    }

    /// The request for the games that the user `user_id` owns.
    pub fn user_games_request(&self, user_id: &str) -> (request: Request)
        requires
            user_id@.len() > 0,
        ensures
            request@ == user_games_request(self.api_key@, user_id@),
    {
        let mut request = self.create_request(
            "http://api.steampowered.com/IPlayerService/GetOwnedGames/v0001",
        );
        let ghost before = request.query.deep_view();
        request.query.push((String::from_str("steamid"), String::from_str(user_id)));
        assert(request.query.deep_view() =~= before.push(("steamid"@, user_id@)));
        let ghost middle = request.query.deep_view();
        request.query.push((String::from_str("include_appinfo"), String::from_str("true")));
        assert(request.query.deep_view() =~= middle.push(("include_appinfo"@, "true"@)));
        assert(request@.query =~= user_games_request(self.api_key@, user_id@).query);
        request
    }

    /// The request for what the user `user_id` has reached in the game
    /// `game_id`.
    pub fn user_game_achievements_request(&self, user_id: &str, game_id: u32) -> (request: Request)
        ensures
            request@ == user_game_achievements_request(self.api_key@, user_id@, game_id),
    {
        let mut request = self.create_request(
            "http://api.steampowered.com/ISteamUserStats/GetPlayerAchievements/v0001",
        );
        let ghost before = request.query.deep_view();
        request.query.push((String::from_str("steamid"), String::from_str(user_id)));
        assert(request.query.deep_view() =~= before.push(("steamid"@, user_id@)));
        let ghost middle = request.query.deep_view();
        request.query.push((String::from_str("appid"), decimal(game_id as u64)));
        assert(request.query.deep_view() =~= middle.push(("appid"@, decimal_text(game_id as nat))));
        assert(request@.query =~= user_game_achievements_request(
            self.api_key@,
            user_id@,
            game_id,
        ).query);
        request
    }

    /// Reads the achievements that a game defines out of the reply to
    /// [`Client::game_achievements_request`].
    pub fn get_game_achievements(&self, reply: Result<GameAchievementsResponse, Fault>) -> (outcome:
        Result<Vec<GameAchievement>, Error>)
        ensures
            outcome_view(outcome) == game_achievements_outcome(outcome_view(reply)),
            reply matches Ok(response) ==> outcome == Ok::<Vec<GameAchievement>, Error>(
                response.game.stats.achievements,
            ),
    {
        match reply {
            Ok(response) => Ok(response.game.stats.achievements),
            Err(fault) => Err(
                fault.error("Steam API request failed", "Converting game achievements response failed"),
            ),
        }
    }

    /// Reads the games that the user owns out of the reply to
    /// [`Client::user_games_request`].
    pub fn get_user_games(&self, reply: Result<UserGamesResponse, Fault>) -> (outcome: Result<
        Vec<UserGame>,
        Error,
    >)
        ensures
            outcome_view(outcome) == user_games_outcome(outcome_view(reply)),
            reply matches Ok(response) ==> outcome == Ok::<Vec<UserGame>, Error>(
                response.response.games,
            ),
    {
        match reply {
            Ok(response) => Ok(response.response.games),
            Err(fault) => Err(
                fault.error("Steam API request failed", "Converting user games response failed"),
            ),
        }
    }

    /// Reads what the player has reached out of the reply to
    /// [`Client::user_game_achievements_request`].
    pub fn get_user_game_achievements(
        &self,
        reply: Result<PlayerGameAchievementsResponse, Fault>,
    ) -> (outcome: Result<Vec<PlayerGameAchievement>, Error>)
        ensures
            outcome_view(outcome) == user_game_achievements_outcome(outcome_view(reply)),
            reply matches Ok(response) ==> outcome == Ok::<Vec<PlayerGameAchievement>, Error>(
                response.player_stats.achievements,
            ),
    {
        match reply {
            Ok(response) => Ok(response.player_stats.achievements),
            Err(fault) => Err(
                fault.error(
                    "Steam player game achievements request failed",
                    "Converting player game achievements response failed",
                ),
            ),
        }
    }
}

} // verus!
