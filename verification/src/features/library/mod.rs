//! The Library tab: the games found on the active profile's linked
//! storefronts, kept up to date from a stream of game events.
//!
//! The stream itself is opened by the host; this module keeps the list and
//! decides what the tab shows.

use vstd::prelude::*;
use crate::components::info_card::Kind;
use crate::components::split_view::PaneMode;
use crate::icons::Icon;

verus! {

/// Width from which a single pane shows its rows in two columns, in logical pixels.
pub const CONTENT_GRID_BREAKPOINT: u32 = 720;

/// A storefront a game can come from.
#[derive(Debug, Clone, Copy, PartialEq, Eq, Structural)]
pub enum Storefront {
    Unspecified,
    Steam,
    EpicGames,
    Gog,
    AmazonGames,
    EaApp,
    UbisoftConnect,
    BattleNet,
}

/// A game of the library.
#[derive(Debug)]
pub struct Game {
    pub id: String,
    pub storefront: Storefront,
    pub title: String,
}

impl Game {
    /// A copy of the game.
    pub fn clone_game(&self) -> (res: Game)
        ensures
            res == *self,
    {
        Game { id: self.id.clone(), storefront: self.storefront, title: self.title.clone() }
    }
}

/// What the stream reports of one game.
#[derive(Debug)]
pub enum GameEvent {
    Added(Option<Game>),
    Updated(Option<Game>),
    Removed { game_id: String, storefront: Storefront },
}

/// A message of the Library tab.
#[derive(Debug)]
pub enum Message {
    Event(GameEvent),
    Error(String),
    Noop,
}

/// The profile whose library is watched, by id; the host keys the game
/// stream on it.
#[derive(Debug, Clone, Hash, PartialEq, Eq)]
pub struct LibraryHandle(pub String);

/// Whether the tab has anything to show yet for the active profile.
#[derive(Debug)]
pub enum LibraryState {
    /// No active profile.
    Idle,
    /// Waiting for the first event of the stream.
    Loading,
    /// Events have arrived, or there is nothing to watch: an empty list means
    /// an empty library.
    Loaded,
    /// The stream failed with this error.
    Failed(String),
}

/// What the tab shows.
#[derive(Debug)]
pub enum Content {
    /// A notice card of this kind, title and body.
    Notice { kind: Kind, title: String, body: String },
    /// The games, in this many columns.
    Games { columns: usize },
}

/// Whether a game is the one with this id on this storefront.
pub open spec fn is_game(game: Game, id: Seq<char>, storefront: Storefront) -> bool {
    game.id@ == id && game.storefront == storefront
}

/// Whether the list holds the game with this id on this storefront.
pub open spec fn holds_game(games: Seq<Game>, id: Seq<char>, storefront: Storefront) -> bool {
    exists|k: int| 0 <= k < games.len() && is_game(#[trigger] games[k], id, storefront)
}

/// The first position of the game with this id on this storefront.
pub open spec fn game_index(games: Seq<Game>, id: Seq<char>, storefront: Storefront) -> int {
    choose|k: int| 0 <= k < games.len() && is_game(games[k], id, storefront)
        && forall|j: int| 0 <= j < k ==> !is_game(#[trigger] games[j], id, storefront)
}

/// A list that holds a game has a first position holding it.
proof fn lemma_first_game_exists(games: Seq<Game>, id: Seq<char>, storefront: Storefront)
    requires
        holds_game(games, id, storefront),
    ensures
        exists|k: int| 0 <= k < games.len() && is_game(games[k], id, storefront)
            && forall|j: int| 0 <= j < k ==> !is_game(#[trigger] games[j], id, storefront),
    decreases games.len(),
{
    let k0 = choose|k: int| 0 <= k < games.len() && is_game(#[trigger] games[k], id, storefront);
    if exists|j: int| 0 <= j < k0 && is_game(#[trigger] games[j], id, storefront) {
        let prefix = games.take(k0);
        let j0 = choose|j: int| 0 <= j < k0 && is_game(#[trigger] games[j], id, storefront);
        assert(prefix[j0] == games[j0]);
        lemma_first_game_exists(prefix, id, storefront);
        let k = choose|k: int| 0 <= k < prefix.len() && is_game(prefix[k], id, storefront)
            && forall|j: int| 0 <= j < k ==> !is_game(#[trigger] prefix[j], id, storefront);
        assert forall|j: int| 0 <= j < k implies !is_game(#[trigger] games[j], id, storefront) by {
            assert(prefix[j] == games[j]);
        }
        assert(prefix[k] == games[k]);
    }
}

/// The list with `game` in place of the entry with its id and storefront, or
/// appended where there is none.
pub open spec fn upserted(games: Seq<Game>, game: Game) -> Seq<Game> {
    if holds_game(games, game.id@, game.storefront) {
        games.update(game_index(games, game.id@, game.storefront), game)
    } else {
        games.push(game)
    }
}

/// Whether a game is kept when the game with this id on this storefront leaves.
pub open spec fn kept(game: Game, id: Seq<char>, storefront: Storefront) -> bool {
    !is_game(game, id, storefront)
}

/// The test that keeps every game but the one with this id on this storefront.
pub open spec fn keeper(id: Seq<char>, storefront: Storefront) -> spec_fn(Game) -> bool {
    |game: Game| kept(game, id, storefront)
}

/// The list without the game with this id on this storefront.
pub open spec fn removed(games: Seq<Game>, id: Seq<char>, storefront: Storefront) -> Seq<Game> {
    games.filter(keeper(id, storefront))
}

/// Position of the first game with this id on this storefront.
fn find_game(games: &Vec<Game>, id: &String, storefront: Storefront) -> (res: Option<usize>)
    ensures
        match res {
            Some(k) => k < games@.len() && is_game(games@[k as int], id@, storefront)
                && forall|j: int| 0 <= j < k ==> !is_game(#[trigger] games@[j], id@, storefront),
            None => !holds_game(games@, id@, storefront),
        },
{
    let mut k: usize = 0;
    while k < games.len()
        invariant
            0 <= k <= games@.len(),
            forall|j: int| 0 <= j < k ==> !is_game(#[trigger] games@[j], id@, storefront),
        decreases games@.len() - k,
    {
        if games[k].id == *id && games[k].storefront == storefront {
            return Some(k);
        }
        k += 1;
    }
    None
}

/// Puts `game` in place of the entry with the same id and storefront, or
/// appends it.
pub fn upsert_game(games: &mut Vec<Game>, game: Game)
    ensures
        final(games)@ == upserted(old(games)@, game),
{
    match find_game(games, &game.id, game.storefront) {
        Some(k) => {
            proof {
                assert(holds_game(games@, game.id@, game.storefront));
                let c = game_index(games@, game.id@, game.storefront);
                if c < k {
                    assert(!is_game(games@[c], game.id@, game.storefront));
                } else if k < c {
                    assert(!is_game(games@[k as int], game.id@, game.storefront));
                }
                assert(c == k);
            }
            games.set(k, game);
        },
        None => {
            games.push(game);
        },
    }
}

/// Drops the game with this id on this storefront, keeping the others in order.
pub fn remove_game(games: &mut Vec<Game>, id: &String, storefront: Storefront)
    ensures
        final(games)@ == removed(old(games)@, id@, storefront),
{
    let ghost keep = keeper(id@, storefront);
    let mut out: Vec<Game> = Vec::new();
    let mut i: usize = 0;
    while i < games.len()
        invariant
            0 <= i <= games@.len(),
            games@ == old(games)@,
            keep == keeper(id@, storefront),
            out@ == games@.take(i as int).filter(keep),
        decreases games@.len() - i,
    {
        let same = games[i].id == *id && games[i].storefront == storefront;
        proof {
            assert(games@.take(i as int + 1) =~= games@.take(i as int).push(games@[i as int]));
            reveal(Seq::filter);
            assert(games@.take(i as int + 1).drop_last() =~= games@.take(i as int));
            assert(keep(games@[i as int]) == !same);
        }
        if !same {
            out.push(games[i].clone_game());
        }
        i += 1;
    }
    proof {
        assert(games@.take(games@.len() as int) =~= games@);
    }
    *games = out;
}

/// The label shown for a storefront.
pub open spec fn storefront_label_spec(storefront: Storefront) -> Seq<char> {
    match storefront {
        Storefront::Steam => "Steam"@,
        Storefront::EpicGames => "Epic Games Store"@,
        Storefront::Gog => "GOG"@,
        Storefront::AmazonGames => "Amazon Games"@,
        Storefront::EaApp => "EA App"@,
        Storefront::UbisoftConnect => "Ubisoft Connect"@,
        Storefront::BattleNet => "Battle.net"@,
        Storefront::Unspecified => "Unknown storefront"@,
    }
}

/// The label shown for a storefront.
pub fn storefront_label(storefront: Storefront) -> (res: &'static str)
    ensures
        res@ == storefront_label_spec(storefront),
{
    match storefront {
        Storefront::Steam => "Steam",
        Storefront::EpicGames => "Epic Games Store",
        Storefront::Gog => "GOG",
        Storefront::AmazonGames => "Amazon Games",
        Storefront::EaApp => "EA App",
        Storefront::UbisoftConnect => "Ubisoft Connect",
        Storefront::BattleNet => "Battle.net",
        Storefront::Unspecified => "Unknown storefront",
    }
}

pub open spec fn storefront_icon_spec(storefront: Storefront) -> Icon {
    match storefront {
        Storefront::Steam => Icon::Computer,
        Storefront::EpicGames | Storefront::Gog | Storefront::AmazonGames => Icon::Disk,
        Storefront::EaApp | Storefront::UbisoftConnect | Storefront::BattleNet => Icon::Controller,
        Storefront::Unspecified => Icon::Warning,
    }
}

/// The icon shown for a storefront.
pub fn storefront_icon(storefront: Storefront) -> (res: Icon)
    ensures
        res == storefront_icon_spec(storefront),
{
    match storefront {
        Storefront::Steam => Icon::Computer,
        Storefront::EpicGames | Storefront::Gog | Storefront::AmazonGames => Icon::Disk,
        Storefront::EaApp | Storefront::UbisoftConnect | Storefront::BattleNet => Icon::Controller,
        Storefront::Unspecified => Icon::Warning,
    }
}

/// The state of the Library tab.
pub struct State {
    pub games: Vec<Game>,
    pub state: LibraryState,
}

impl State {
    /// No profile, no games.
    pub fn new() -> (state: Self)
        ensures
            state.games@.len() == 0,
            state.state is Idle,
    {
        State { games: Vec::new(), state: LibraryState::Idle }
    }

    /// Starts over for a new active profile. `has_watchable_accounts` is
    /// `None` when there is no active profile, else whether the profile has
    /// linked accounts for the stream to report on.
    pub fn reset_for_profile(&mut self, has_watchable_accounts: Option<bool>)
        ensures
            final(self).games@.len() == 0,
            match has_watchable_accounts {
                None => final(self).state is Idle,
                Some(true) => final(self).state is Loading,
                Some(false) => final(self).state is Loaded,
            },
    {
        self.games = Vec::new();
        self.state = match has_watchable_accounts {
            None => LibraryState::Idle,
            Some(true) => LibraryState::Loading,
            Some(false) => LibraryState::Loaded,
        };
    }

    /// What an update does to the tab, message by message.
    pub open spec fn update_post(old: State, message: Message, new: State) -> bool {
        match message {
                Message::Event(GameEvent::Added(game)) | Message::Event(GameEvent::Updated(game)) => {
                    &&& new.state is Loaded
                    &&& new.games@ == match game {
                        Some(g) => upserted(old.games@, g),
                        None => old.games@,
                    }
                },
                Message::Event(GameEvent::Removed { game_id, storefront }) => {
                    &&& new.games@ == removed(old.games@, game_id@, storefront)
                    &&& new.state == old.state
                },
                Message::Error(error) => {
                    &&& new.state == LibraryState::Failed(error)
                    &&& new.games == old.games
                },
                Message::Noop => new == old,
            }
    }

    /// Applies a message of the stream.
    pub fn update(&mut self, message: Message)
        ensures
            State::update_post(*old(self), message, *final(self)),
    {
        match message {
            Message::Event(GameEvent::Added(game)) | Message::Event(GameEvent::Updated(game)) => {
                self.state = LibraryState::Loaded;
                if let Some(game) = game {
                    upsert_game(&mut self.games, game);
                }
            },
            Message::Event(GameEvent::Removed { game_id, storefront }) => {
                remove_game(&mut self.games, &game_id, storefront);
            },
            Message::Error(error) => {
                self.state = LibraryState::Failed(error);
            },
            Message::Noop => {},
        }
    }

    /// What the tab shows in a pane of this width and mode: a notice while
    /// there is no profile, while loading, after a failure or for an empty
    /// library; else the games, in two columns in a wide single pane.
    pub fn content(&self, width: u32, mode: PaneMode) -> (res: Content)
        ensures
            match self.state {
                LibraryState::Idle => res matches Content::Notice { kind, title, body }
                    && kind == Kind::Hint && title@ == "No active profile"@
                    && body@ == "Sign in to a profile to see its library."@,
                LibraryState::Loading => res matches Content::Notice { kind, title, body }
                    && kind == Kind::Hint && title@ == "Loading library"@
                    && body@ == "Fetching games linked to this profile's storefronts."@,
                LibraryState::Failed(error) => res matches Content::Notice { kind, title, body }
                    && kind == Kind::Error && title@ == "Couldn't load library"@ && body@ == error@,
                LibraryState::Loaded => if self.games@.len() == 0 {
                    res matches Content::Notice { kind, title, body }
                        && kind == Kind::Hint && title@ == "Nothing here yet"@
                        && body@ == "Games linked to this profile's storefronts will show up here."@
                } else {
                    res == Content::Games {
                        columns: if mode == PaneMode::Single && width >= CONTENT_GRID_BREAKPOINT { 2usize } else { 1usize },
                    }
                },
            },
    {
        match &self.state {
            LibraryState::Idle => {
                return Content::Notice {
                    kind: Kind::Hint,
                    title: String::from_str("No active profile"),
                    body: String::from_str("Sign in to a profile to see its library."),
                };
            },
            LibraryState::Loading => {
                return Content::Notice {
                    kind: Kind::Hint,
                    title: String::from_str("Loading library"),
                    body: String::from_str("Fetching games linked to this profile's storefronts."),
                };
            },
            LibraryState::Failed(error) => {
                return Content::Notice {
                    kind: Kind::Error,
                    title: String::from_str("Couldn't load library"),
                    body: error.clone(),
                };
            },
            LibraryState::Loaded => {},
        }
        if self.games.len() == 0 {
            return Content::Notice {
                kind: Kind::Hint,
                title: String::from_str("Nothing here yet"),
                body: String::from_str("Games linked to this profile's storefronts will show up here."),
            };
        }
        let wide = mode == PaneMode::Single && width >= CONTENT_GRID_BREAKPOINT;
        Content::Games { columns: if wide { 2 } else { 1 } }
    }
}

/// After an upsert the list holds the game, and every other entry stays
/// where it was.
pub proof fn law_upsert_holds_game(games: Seq<Game>, game: Game)
    ensures
        holds_game(upserted(games, game), game.id@, game.storefront),
        forall|k: int| 0 <= k < games.len() && !is_game(games[k], game.id@, game.storefront)
            ==> #[trigger] upserted(games, game)[k] == games[k],
{
    let up = upserted(games, game);
    if holds_game(games, game.id@, game.storefront) {
        lemma_first_game_exists(games, game.id@, game.storefront);
        let c = game_index(games, game.id@, game.storefront);
        assert(up[c] == game);
    } else {
        assert(up[games.len() as int] == game);
    }
}

/// After a removal the list no longer holds the game.
pub proof fn law_removed_game_is_gone(games: Seq<Game>, id: Seq<char>, storefront: Storefront)
    ensures
        !holds_game(removed(games, id, storefront), id, storefront),
{
    let rest = removed(games, id, storefront);
    broadcast use vstd::seq_lib::group_filter_ensures;
    assert forall|k: int| 0 <= k < rest.len() implies !is_game(#[trigger] rest[k], id, storefront) by {
        assert(keeper(id, storefront)(rest[k]));
    }
}

} // verus!
