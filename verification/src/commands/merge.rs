//! One achievement for each identifier: the table that the merge builds,
//! and what holds of it.

use vstd::prelude::*;
use crate::error::{ErrorView, FailureView};
use crate::steam::{
    Achievement, AchievementView, GameAchievement, GameAchievementView, PlayerGameAchievement,
    PlayerGameAchievementView,
};

verus! {

/// The table of achievements by identifier.
pub type Table = Map<Seq<char>, AchievementView>;

/// The table after a player's record has been entered: a known identifier
/// has its progress replaced, an unknown one enters from the record alone.
pub open spec fn upsert_player(table: Table, player: PlayerGameAchievementView) -> Table {
    let key = player.achievement_api_name;
    if table.contains_key(key) {
        table.insert(key, table[key].merge_player_achievement(player))
    } else {
        table.insert(key, AchievementView::from_player(player))
    }
}

/// The table after a game's record has been entered: a known identifier has
/// its description replaced, an unknown one enters from the record alone.
pub open spec fn upsert_game(table: Table, game: GameAchievementView) -> Table {
    let key = game.api_name;
    if table.contains_key(key) {
        table.insert(key, table[key].merge_game_achievement(game))
    } else {
        table.insert(key, AchievementView::from_game(game))
    }
}

/// The table after the first `n` positions of both lists have been entered,
/// at each position the player's record before the game's.
pub open spec fn merge_table(
    players: Seq<PlayerGameAchievementView>,
    games: Seq<GameAchievementView>,
    n: nat,
) -> Table
    decreases n,
{
    if n == 0 {
        Map::empty()
    } else {
        let before = merge_table(players, games, (n - 1) as nat);
        upsert_game(upsert_player(before, players[n - 1]), games[n - 1])
    }
}

/// `keys` with `key` added at the end unless it is there already.
pub open spec fn note_key(keys: Seq<Seq<char>>, key: Seq<char>) -> Seq<Seq<char>> {
    if keys.contains(key) {
        keys
    } else {
        keys.push(key)
    }
}

/// The identifiers that the first `n` positions bring, each once, in the
/// order in which they first occur.
pub open spec fn merge_keys(
    players: Seq<PlayerGameAchievementView>,
    games: Seq<GameAchievementView>,
    n: nat,
) -> Seq<Seq<char>>
    decreases n,
{
    if n == 0 {
        Seq::empty()
    } else {
        let before = merge_keys(players, games, (n - 1) as nat);
        note_key(note_key(before, players[n - 1].achievement_api_name), games[n - 1].api_name)
    }
}

/// The achievements of the table that two lists of the same length give, in
/// the order in which their identifiers first occur.
pub open spec fn merged_achievements(
    players: Seq<PlayerGameAchievementView>,
    games: Seq<GameAchievementView>,
) -> Seq<AchievementView>
    recommends
        players.len() == games.len(),
{
    let n = players.len();
    let keys = merge_keys(players, games, n);
    let table = merge_table(players, games, n);
    Seq::new(keys.len(), |j: int| table[keys[j]])
}

/// Whether `keys` lists the identifiers of `table`, each once.
pub open spec fn lists_keys(keys: Seq<Seq<char>>, table: Table) -> bool {
    &&& keys.no_duplicates()
    &&& forall|key: Seq<char>| table.contains_key(key) <==> keys.contains(key)
}

/// Entering a player's record notes its identifier.
pub proof fn lemma_upsert_player_keys(
    keys: Seq<Seq<char>>,
    table: Table,
    player: PlayerGameAchievementView,
)
    requires
        lists_keys(keys, table),
    ensures
        lists_keys(note_key(keys, player.achievement_api_name), upsert_player(table, player)),
{
    let noted = note_key(keys, player.achievement_api_name);
    let entered = upsert_player(table, player);
    lemma_note_key(keys, player.achievement_api_name);
    assert forall|key: Seq<char>| entered.contains_key(key) <==> noted.contains(key) by {
        assert(table.contains_key(key) <==> keys.contains(key));
        assert(noted.contains(key) <==> (keys.contains(key) || key == player.achievement_api_name));
        assert(entered.contains_key(key) <==> (table.contains_key(key) || key
            == player.achievement_api_name));
    }
}

/// Entering a game's record notes its identifier.
pub proof fn lemma_upsert_game_keys(keys: Seq<Seq<char>>, table: Table, game: GameAchievementView)
    requires
        lists_keys(keys, table),
    ensures
        lists_keys(note_key(keys, game.api_name), upsert_game(table, game)),
{
    let noted = note_key(keys, game.api_name);
    let entered = upsert_game(table, game);
    lemma_note_key(keys, game.api_name);
    assert forall|key: Seq<char>| entered.contains_key(key) <==> noted.contains(key) by {
        assert(table.contains_key(key) <==> keys.contains(key));
        assert(noted.contains(key) <==> (keys.contains(key) || key == game.api_name));
        assert(entered.contains_key(key) <==> (table.contains_key(key) || key == game.api_name));
    }
}

/// The identifiers noted are those of the table, and none is noted twice.
pub proof fn lemma_keys_are_domain(
    players: Seq<PlayerGameAchievementView>,
    games: Seq<GameAchievementView>,
    n: nat,
)
    ensures
        lists_keys(merge_keys(players, games, n), merge_table(players, games, n)),
    decreases n,
{
    if n > 0 {
        lemma_keys_are_domain(players, games, (n - 1) as nat);
        let keys0 = merge_keys(players, games, (n - 1) as nat);
        let table0 = merge_table(players, games, (n - 1) as nat);
        let p = players[n - 1];
        let g = games[n - 1];
        lemma_upsert_player_keys(keys0, table0, p);
        lemma_upsert_game_keys(note_key(keys0, p.achievement_api_name), upsert_player(table0, p), g);
    }
}

/// Noting a key keeps the keys distinct and adds exactly that key.
pub proof fn lemma_note_key(keys: Seq<Seq<char>>, key: Seq<char>)
    requires
        keys.no_duplicates(),
    ensures
        note_key(keys, key).no_duplicates(),
        forall|other: Seq<char>|
            note_key(keys, key).contains(other) <==> (keys.contains(other) || other == key),
        forall|j: int| 0 <= j < keys.len() ==> note_key(keys, key)[j] == keys[j],
        keys.len() <= note_key(keys, key).len(),
{
    let noted = note_key(keys, key);
    if !keys.contains(key) {
        assert forall|other: Seq<char>| noted.contains(other) implies (keys.contains(other)
            || other == key) by {
            let j = choose|j: int| 0 <= j < noted.len() && noted[j] == other;
            if j < keys.len() {
                assert(keys[j] == other);
            }
        }
        assert forall|other: Seq<char>| (keys.contains(other) || other == key) implies noted.contains(
            other,
        ) by {
            if keys.contains(other) {
                let j = choose|j: int| 0 <= j < keys.len() && keys[j] == other;
                assert(noted[j] == other);
            } else {
                assert(noted[keys.len() as int] == other);
            }
        }
    }
}

/// The table that `keys` and `values` stand for: each identifier with the
/// achievement at its place.
pub open spec fn entries(keys: Seq<Seq<char>>, values: Seq<AchievementView>) -> Table {
    Map::new(|key: Seq<char>| keys.contains(key), |key: Seq<char>| values[keys.index_of(key)])
}

/// Where no identifier occurs twice, each has the achievement at its own
/// place.
pub proof fn lemma_entries(keys: Seq<Seq<char>>, values: Seq<AchievementView>)
    requires
        keys.no_duplicates(),
    ensures
        forall|j: int|
            0 <= j < keys.len() ==> entries(keys, values).contains_key(#[trigger] keys[j]) && entries(
                keys,
                values,
            )[keys[j]] == values[j],
{
    assert forall|j: int| 0 <= j < keys.len() implies entries(keys, values).contains_key(
        #[trigger] keys[j],
    ) && entries(keys, values)[keys[j]] == values[j] by {
        assert(keys.contains(keys[j]));
        let found = keys.index_of(keys[j]);
        assert(0 <= found < keys.len() && keys[found] == keys[j]);
    }
}

/// A table of achievements by identifier that remembers the order in which
/// the identifiers entered.
#[derive(Debug)]
pub struct AchievementMap {
    keys: Vec<String>,
    values: Vec<Achievement>,
}

impl View for AchievementMap {
    type V = Table;

    open spec fn view(&self) -> Table {
        entries(self.keys(), self.values())
    }
}

impl AchievementMap {
    /// The identifiers, in the order in which they entered.
    pub closed spec fn keys(&self) -> Seq<Seq<char>> {
        self.keys.deep_view()
    }

    /// The achievements, each at the place of its identifier.
    pub closed spec fn values(&self) -> Seq<AchievementView> {
        self.values.deep_view()
    }

    /// Whether no identifier occurs twice and each has its achievement.
    pub open spec fn wf(&self) -> bool {
        &&& self.keys().no_duplicates()
        &&& self.keys().len() == self.values().len()
    }

    /// The table without an entry.
    pub fn new() -> (map: AchievementMap)
        ensures
            map.wf(),
            map.keys() == Seq::<Seq<char>>::empty(),
            map@ == Table::empty(),
    {
        let map = AchievementMap { keys: Vec::new(), values: Vec::new() };
        assert(map.keys() =~= Seq::<Seq<char>>::empty());
        assert(map.values() =~= Seq::<AchievementView>::empty());
        assert(map@ =~= Table::empty());
        map
    }

    /// The place of `name` among the identifiers, if it is one of them.
    fn position(&self, name: &String) -> (found: Option<usize>)
        ensures
            match found {
                Some(j) => j < self.keys().len() && self.keys()[j as int] == name@,
                None => !self.keys().contains(name@),
            },
    {
        let mut j: usize = 0;
        while j < self.keys.len()
            invariant
                j <= self.keys.len(),
                forall|k: int| 0 <= k < j ==> self.keys[k]@ != name@,
            decreases self.keys.len() - j,
        {
            if self.keys[j] == *name {
                return Some(j);
            }
            j += 1;
        }
        None
    }

    /// Enters `made` under the new identifier `key`.
    fn insert_new(&mut self, key: String, made: Achievement)
        requires
            old(self).wf(),
            !old(self).keys().contains(key@),
        ensures
            final(self).wf(),
            final(self).keys() == old(self).keys().push(key@),
            final(self)@ == old(self)@.insert(key@, made@),
    {
        self.keys.push(key);
        self.values.push(made);
        proof {
            let keys0 = old(self).keys();
            let values0 = old(self).values();
            assert(self.keys() =~= keys0.push(key@));
            assert(self.values() =~= values0.push(made@));
            lemma_note_key(keys0, key@);
            lemma_entries(keys0, values0);
            lemma_entries(self.keys(), self.values());
            assert forall|other: Seq<char>| #[trigger]
                self@.contains_key(other) <==> old(self)@.insert(key@, made@).contains_key(other) by {
                assert(self.keys().contains(other) <==> (keys0.contains(other) || other == key@));
            }
            assert forall|other: Seq<char>| #[trigger]
                self@.contains_key(other) implies self@[other] == old(self)@.insert(
                key@,
                made@,
            )[other] by {
                let j = self.keys().index_of(other);
                assert(self.keys()[j] == other);
                if j < keys0.len() {
                    assert(keys0[j] == other);
                }
            }
            assert(self@ =~= old(self)@.insert(key@, made@));
        }
    }

    /// Enters a player's record: a known identifier has its progress
    /// replaced, an unknown one enters from the record alone.
    pub fn upsert_player(&mut self, player: &PlayerGameAchievement)
        requires
            old(self).wf(),
        ensures
            final(self).wf(),
            final(self).keys() == note_key(old(self).keys(), player@.achievement_api_name),
            final(self)@ == upsert_player(old(self)@, player@),
    {
        match self.position(&player.achievement_api_name) {
            Some(j) => {
                self.values[j].merge_player_achievement(player);
                proof {
                    self.lemma_replaced(old(self), j as int);
                }
            },
            None => {
                self.insert_new(player.achievement_api_name.clone(), Achievement::from(player));
            },
        }
    }

    /// Enters a game's record: a known identifier has its description
    /// replaced, an unknown one enters from the record alone.
    pub fn upsert_game(&mut self, game: &GameAchievement)
        requires
            old(self).wf(),
        ensures
            final(self).wf(),
            final(self).keys() == note_key(old(self).keys(), game@.api_name),
            final(self)@ == upsert_game(old(self)@, game@),
    {
        match self.position(&game.api_name) {
            Some(j) => {
                self.values[j].merge_game_achievement(game);
                proof {
                    self.lemma_replaced(old(self), j as int);
                }
            },
            None => {
                self.insert_new(game.api_name.clone(), Achievement::from(game));
            },
        }
    }

    /// Replacing the achievement at one place replaces the entry of the
    /// identifier at that place and no other.
    proof fn lemma_replaced(&self, before: &AchievementMap, j: int)
        requires
            before.wf(),
            0 <= j < before.keys.len(),
            self.keys == before.keys,
            self.values@.len() == before.values@.len(),
            forall|k: int| 0 <= k < before.values@.len() && k != j ==> self.values@[k] == before.values@[k],
        ensures
            self.wf(),
            self.keys() == before.keys(),
            self@ == before@.insert(before.keys()[j], self.values@[j]@),
    {
        let keys = before.keys();
        lemma_entries(keys, before.values());
        lemma_entries(keys, self.values());
        assert forall|other: Seq<char>| #[trigger]
            self@.contains_key(other) implies self@[other] == before@.insert(
            keys[j],
            self.values@[j]@,
        )[other] by {
            let k = keys.index_of(other);
            assert(keys[k] == other);
        }
        assert(keys.contains(keys[j]));
        assert(self@ =~= before@.insert(keys[j], self.values@[j]@));
    }

    /// The achievements, in the order in which their identifiers entered.
    pub fn into_values(self) -> (values: Vec<Achievement>)
        requires
            self.wf(),
        ensures
            values.deep_view() == Seq::new(self.keys().len(), |j: int| self@[self.keys()[j]]),
    {
        proof {
            lemma_entries(self.keys(), self.values());
            assert(self.values() =~= Seq::new(self.keys().len(), |j: int| self@[self.keys()[j]]));
        }
        self.values
    }
}

/// What the merge comes to: the united achievements where both lists have
/// the same length, and else the two lengths.
pub open spec fn merge_outcome(
    players: Seq<PlayerGameAchievementView>,
    games: Seq<GameAchievementView>,
) -> Result<Seq<AchievementView>, ErrorView> {
    if players.len() == games.len() {
        Ok(merged_achievements(players, games))
    } else {
        Err(
            ErrorView::new(
                FailureView::SizeMismatch {
                    player_achievements: players.len(),
                    game_achievements: games.len(),
                },
            ),
        )
    }
}

/// Whether the two lists have the same length and the same identifier at
/// each position.
pub open spec fn aligned(
    players: Seq<PlayerGameAchievementView>,
    games: Seq<GameAchievementView>,
) -> bool {
    &&& players.len() == games.len()
    &&& forall|i: int|
        0 <= i < players.len() ==> (#[trigger] players[i]).achievement_api_name == games[i].api_name
}

/// The achievement that one position describes: identity and description
/// as the game gives them, progress as the player has it.
pub open spec fn united(
    player: PlayerGameAchievementView,
    game: GameAchievementView,
) -> AchievementView {
    AchievementView {
        api_name: game.api_name,
        display_name: game.display_name,
        hidden: game.hidden,
        description: game.description,
        achieved: player.achieved,
        achieved_at: player.achieved_at,
    }
}

/// The last of the first `n` positions at which the player's record has the
/// identifier `key`, and `-1` where none has.
pub open spec fn last_position(players: Seq<PlayerGameAchievementView>, n: nat, key: Seq<char>) -> int
    decreases n,
{
    if n == 0 {
        -1
    } else if players[n - 1].achievement_api_name == key {
        n - 1
    } else {
        last_position(players, (n - 1) as nat, key)
    }
}

/// A position that `last_position` names lies among the first `n` and has
/// the identifier, and no later one among them has it.
pub proof fn lemma_last_position(players: Seq<PlayerGameAchievementView>, n: nat, key: Seq<char>)
    requires
        n <= players.len(),
    ensures
        -1 <= last_position(players, n, key) < n,
        last_position(players, n, key) >= 0 ==> players[last_position(
            players,
            n,
            key,
        )].achievement_api_name == key,
        forall|j: int|
            last_position(players, n, key) < j < n ==> (#[trigger] players[j]).achievement_api_name
                != key,
    decreases n,
{
    if n > 0 && players[n - 1].achievement_api_name != key {
        lemma_last_position(players, (n - 1) as nat, key);
    }
}

/// The last of the first `n` positions at which the game's record has the
/// identifier `key`, and `-1` where none has.
pub open spec fn last_game_position(games: Seq<GameAchievementView>, n: nat, key: Seq<char>) -> int
    decreases n,
{
    if n == 0 {
        -1
    } else if games[n - 1].api_name == key {
        n - 1
    } else {
        last_game_position(games, (n - 1) as nat, key)
    }
}

/// A position that `last_game_position` names lies among the first `n` and
/// has the identifier, and no later one among them has it.
pub proof fn lemma_last_game_position(games: Seq<GameAchievementView>, n: nat, key: Seq<char>)
    requires
        n <= games.len(),
    ensures
        -1 <= last_game_position(games, n, key) < n,
        last_game_position(games, n, key) >= 0 ==> games[last_game_position(games, n, key)].api_name
            == key,
        forall|j: int|
            last_game_position(games, n, key) < j < n ==> (#[trigger] games[j]).api_name != key,
    decreases n,
{
    if n > 0 && games[n - 1].api_name != key {
        lemma_last_game_position(games, (n - 1) as nat, key);
    }
}

/// The achievement that the records with the identifier `key` describe,
/// among the first `np` of the player's and the first `ng` of the game's:
/// the progress of the last such player record, and none where there is no
/// such record; the name, description and hidden flag of the last such game
/// record, and an empty name, no description and not hidden where there is
/// no such record.
pub open spec fn described(
    players: Seq<PlayerGameAchievementView>,
    np: nat,
    games: Seq<GameAchievementView>,
    ng: nat,
    key: Seq<char>,
) -> AchievementView {
    let p = last_position(players, np, key);
    let g = last_game_position(games, ng, key);
    AchievementView {
        api_name: key,
        display_name: if g >= 0 {
            games[g].display_name
        } else {
            Seq::empty()
        },
        hidden: g >= 0 && games[g].hidden,
        description: if g >= 0 {
            games[g].description
        } else {
            None
        },
        achieved: p >= 0 && players[p].achieved,
        achieved_at: if p >= 0 {
            players[p].achieved_at
        } else {
            None
        },
    }
}

/// The table after `n` positions holds exactly the identifiers that occur
/// in either list, each with the achievement that the records with that
/// identifier describe.
pub proof fn lemma_table_by_identifier(
    players: Seq<PlayerGameAchievementView>,
    games: Seq<GameAchievementView>,
    n: nat,
    key: Seq<char>,
)
    requires
        n <= players.len(),
        n <= games.len(),
    ensures
        merge_table(players, games, n).contains_key(key) <==> (last_position(players, n, key) >= 0
            || last_game_position(games, n, key) >= 0),
        merge_table(players, games, n).contains_key(key) ==> merge_table(players, games, n)[key]
            == described(players, n, games, n, key),
    decreases n,
{
    if n > 0 {
        let m = (n - 1) as nat;
        lemma_table_by_identifier(players, games, m, key);
        lemma_last_position(players, m, key);
        lemma_last_game_position(games, m, key);
        let p = players[n - 1];
        let g = games[n - 1];
        let table0 = merge_table(players, games, m);
        let table1 = upsert_player(table0, p);
        assert(table1.contains_key(key) <==> (last_position(players, n, key) >= 0
            || last_game_position(games, m, key) >= 0));
        assert(table1.contains_key(key) ==> table1[key] == described(players, n, games, m, key));
    }
}

/// For lists of the same length, the merge holds one achievement for each
/// identifier that occurs in either list, whatever the positions at which
/// it occurs. Its progress is that of the last player record with the
/// identifier, and none where no player record has it. Its name, description
/// and hidden flag are those of the last game record with the identifier,
/// and empty where no game record has it.
pub proof fn lemma_merge_by_identifier(
    players: Seq<PlayerGameAchievementView>,
    games: Seq<GameAchievementView>,
)
    requires
        players.len() == games.len(),
    ensures
        api_names(merged_achievements(players, games)).no_duplicates(),
        forall|i: int|
            0 <= i < players.len() ==> api_names(merged_achievements(players, games)).contains(
                (#[trigger] players[i]).achievement_api_name,
            ),
        forall|i: int|
            0 <= i < games.len() ==> api_names(merged_achievements(players, games)).contains(
                (#[trigger] games[i]).api_name,
            ),
        forall|a: int|
            0 <= a < merged_achievements(players, games).len() ==> {
                let key = (#[trigger] merged_achievements(players, games)[a]).api_name;
                &&& last_position(players, players.len(), key) >= 0 || last_game_position(
                    games,
                    games.len(),
                    key,
                ) >= 0
                &&& merged_achievements(players, games)[a] == described(
                    players,
                    players.len(),
                    games,
                    games.len(),
                    key,
                )
            },
{
    let n = players.len();
    let keys = merge_keys(players, games, n);
    let merged = merged_achievements(players, games);
    lemma_keys_are_domain(players, games, n);
    assert forall|a: int| 0 <= a < merged.len() implies {
        &&& (#[trigger] merged[a]).api_name == keys[a]
        &&& last_position(players, n, keys[a]) >= 0 || last_game_position(games, n, keys[a]) >= 0
        &&& merged[a] == described(players, n, games, n, keys[a])
    } by {
        assert(keys.contains(keys[a]));
        lemma_table_by_identifier(players, games, n, keys[a]);
    }
    assert(api_names(merged) =~= keys);
    assert forall|i: int| 0 <= i < n implies keys.contains(
        (#[trigger] players[i]).achievement_api_name,
    ) by {
        let key = players[i].achievement_api_name;
        lemma_last_position(players, n, key);
        lemma_table_by_identifier(players, games, n, key);
    }
    assert forall|i: int| 0 <= i < n implies keys.contains((#[trigger] games[i]).api_name) by {
        let key = games[i].api_name;
        lemma_last_game_position(games, n, key);
        lemma_table_by_identifier(players, games, n, key);
    }
}

/// For aligned lists, the table after `n` positions holds exactly the
/// identifiers seen, each with the achievement that the last position with
/// that identifier describes.
pub proof fn lemma_aligned_table(
    players: Seq<PlayerGameAchievementView>,
    games: Seq<GameAchievementView>,
    n: nat,
    key: Seq<char>,
)
    requires
        aligned(players, games),
        n <= players.len(),
    ensures
        merge_table(players, games, n).contains_key(key) <==> last_position(players, n, key) >= 0,
        merge_table(players, games, n).contains_key(key) ==> merge_table(players, games, n)[key]
            == united(
            players[last_position(players, n, key)],
            games[last_position(players, n, key)],
        ),
    decreases n,
{
    if n > 0 {
        lemma_aligned_table(players, games, (n - 1) as nat, key);
        let p = players[n - 1];
        let g = games[n - 1];
        assert(p.achievement_api_name == g.api_name);
        let table0 = merge_table(players, games, (n - 1) as nat);
        let table1 = upsert_player(table0, p);
        assert(table1.contains_key(g.api_name));
        assert(table1[g.api_name].merge_game_achievement(g) == united(p, g));
    }
}

/// The identifiers of the achievements, in their order.
pub open spec fn api_names(achievements: Seq<AchievementView>) -> Seq<Seq<char>> {
    Seq::new(achievements.len(), |a: int| achievements[a].api_name)
}

/// For lists that have the same length and the same identifier at each
/// position, the merge holds one achievement for each identifier that
/// occurs, and that achievement has the player's progress and the game's
/// name, description and hidden flag, both taken from the last position
/// with that identifier.
pub proof fn lemma_merge_of_aligned_lists(
    players: Seq<PlayerGameAchievementView>,
    games: Seq<GameAchievementView>,
)
    requires
        aligned(players, games),
    ensures
        api_names(merged_achievements(players, games)).no_duplicates(),
        forall|i: int|
            0 <= i < players.len() ==> api_names(merged_achievements(players, games)).contains(
                (#[trigger] players[i]).achievement_api_name,
            ),
        forall|a: int|
            0 <= a < merged_achievements(players, games).len() ==> {
                let last = last_position(
                    players,
                    players.len(),
                    (#[trigger] merged_achievements(players, games)[a]).api_name,
                );
                &&& 0 <= last < players.len()
                &&& merged_achievements(players, games)[a] == united(players[last], games[last])
            },
{
    let n = players.len();
    let keys = merge_keys(players, games, n);
    let table = merge_table(players, games, n);
    let merged = merged_achievements(players, games);
    lemma_keys_are_domain(players, games, n);
    assert forall|a: int| 0 <= a < merged.len() implies {
        let last = last_position(players, n, keys[a]);
        &&& (#[trigger] merged[a]).api_name == keys[a]
        &&& 0 <= last < n
        &&& merged[a] == united(players[last], games[last])
    } by {
        assert(keys.contains(keys[a]));
        lemma_aligned_table(players, games, n, keys[a]);
        lemma_last_position(players, n, keys[a]);
    }
    assert(api_names(merged) =~= keys);
    assert forall|i: int| 0 <= i < players.len() implies keys.contains(
        (#[trigger] players[i]).achievement_api_name,
    ) by {
        let key = players[i].achievement_api_name;
        lemma_last_position(players, n, key);
        lemma_aligned_table(players, games, n, key);
    }
}

/// Whether no identifier occurs at two positions of the player's list.
pub open spec fn distinct_identifiers(players: Seq<PlayerGameAchievementView>) -> bool {
    forall|i: int, j: int|
        0 <= i < j < players.len() ==> (#[trigger] players[i]).achievement_api_name
            != (#[trigger] players[j]).achievement_api_name
}

/// For aligned lists in which no identifier occurs twice, the identifiers
/// noted after `n` positions are those of the positions, in their order.
pub proof fn lemma_distinct_keys(
    players: Seq<PlayerGameAchievementView>,
    games: Seq<GameAchievementView>,
    n: nat,
)
    requires
        aligned(players, games),
        distinct_identifiers(players),
        n <= players.len(),
    ensures
        merge_keys(players, games, n) == Seq::new(n, |i: int| players[i].achievement_api_name),
    decreases n,
{
    let ids = Seq::new(n, |i: int| players[i].achievement_api_name);
    if n > 0 {
        lemma_distinct_keys(players, games, (n - 1) as nat);
        let before = merge_keys(players, games, (n - 1) as nat);
        let p = players[n - 1];
        assert(p.achievement_api_name == games[n - 1].api_name);
        if before.contains(p.achievement_api_name) {
            let j = choose|j: int| 0 <= j < before.len() && before[j] == p.achievement_api_name;
            assert(players[j].achievement_api_name == players[n - 1].achievement_api_name);
        }
        let noted = before.push(p.achievement_api_name);
        assert(noted[n - 1] == p.achievement_api_name);
        assert(noted.contains(p.achievement_api_name));
        assert(merge_keys(players, games, n) == noted);
        assert(noted =~= ids);
    } else {
        assert(merge_keys(players, games, n) =~= ids);
    }
}

/// For lists that have the same length and the same identifier at each
/// position, and no identifier twice, the merge holds, position by
/// position, the player's progress with the game's name, description and
/// hidden flag.
pub proof fn lemma_merge_of_distinct_aligned_lists(
    players: Seq<PlayerGameAchievementView>,
    games: Seq<GameAchievementView>,
)
    requires
        aligned(players, games),
        distinct_identifiers(players),
    ensures
        merged_achievements(players, games) == Seq::new(
            players.len(),
            |i: int| united(players[i], games[i]),
        ),
{
    let n = players.len();
    let merged = merged_achievements(players, games);
    let expected = Seq::new(n, |i: int| united(players[i], games[i]));
    lemma_distinct_keys(players, games, n);
    assert(merged.len() == n);
    assert forall|i: int| 0 <= i < n implies merged[i] == expected[i] by {
        let key = players[i].achievement_api_name;
        lemma_last_position(players, n, key);
        lemma_aligned_table(players, games, n, key);
        let last = last_position(players, n, key);
        if last < i {
            assert(players[i].achievement_api_name != key);
        }
        if last > i {
            assert(players[i].achievement_api_name != players[last].achievement_api_name);
        }
    }
    assert(merged =~= expected);
}

} // verus!
