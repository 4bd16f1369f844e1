//! The Classic library tab: the search over the core library and program
//! launches from it.
//!
//! Searches are numbered by generation. Results and completions of an older
//! search are dropped, and a search stays active until its own completion
//! arrives, even after cancellation was requested.

use std::collections::HashMap;
use vstd::prelude::*;
use tokio_util::sync::CancellationToken;
use crate::operation::{bump, cancel_token, new_token, next_generation, share_token, CoreFailure};

verus! {

broadcast use vstd::std_specs::hash::group_hash_axioms;

/// What the library tab is showing.
#[derive(Debug, Clone, Copy, PartialEq, Eq, Structural)]
pub enum LibraryState {
    Idle,
    Loading,
    Loaded,
}

/// The current search and the searches that are still running.
pub struct Search<E> {
    pub entries: Vec<E>,
    pub state: LibraryState,
    pub generation: u64,
    pub active: HashMap<u64, CancellationToken>,
}

impl<E> Search<E> {
    /// No search yet.
    pub fn new() -> (search: Self)
        ensures
            search.entries@.len() == 0,
            search.state == LibraryState::Idle,
            search.generation == 0,
            search.active@ == Map::<u64, CancellationToken>::empty(),
    {
        Search { entries: Vec::new(), state: LibraryState::Idle, generation: 0, active: HashMap::new() }
    }

    /// Requests cancellation of every running search; they stay active until
    /// their completion arrives.
    pub fn cancel(&self) {
        for token in self.active.values() {
            cancel_token(token);
        }
    }

    /// Starts a new search: running ones are asked to stop, the results are
    /// cleared, and the new generation is registered as active.
    pub fn begin(&mut self) -> (res: (u64, CancellationToken))
        ensures
            res.0 == next_generation(old(self).generation),
            final(self).generation == res.0,
            final(self).entries@.len() == 0,
            final(self).state == LibraryState::Loading,
            final(self).active@ == old(self).active@.insert(res.0, final(self).active@[res.0]),
    {
        self.cancel();
        self.generation = bump(self.generation);
        self.entries.clear();
        self.state = LibraryState::Loading;
        let cancellation = new_token();
        self.active.insert(self.generation, share_token(&cancellation));
        (self.generation, cancellation)
    }

    /// Adds a result; results of an older search are dropped.
    pub fn push_entry(&mut self, generation: u64, entry: E)
        ensures
            generation != old(self).generation ==> *final(self) == *old(self),
            generation == old(self).generation ==> final(self).entries@ == old(self).entries@.push(entry)
                && final(self).state == LibraryState::Loaded,
            generation != old(self).generation ==> final(self).entries@ == old(self).entries@
                && final(self).state == old(self).state,
            final(self).generation == old(self).generation,
            final(self).active@ == old(self).active@,
    {
        if generation == self.generation {
            self.state = LibraryState::Loaded;
            self.entries.push(entry);
        }
    }

    /// Records the completion of a search: it is no longer active, and if it
    /// is the current one the results are final.
    pub fn finish(&mut self, generation: u64)
        ensures
            final(self).active@ == old(self).active@.remove(generation),
            final(self).state == (if generation == old(self).generation { LibraryState::Loaded } else { old(self).state }),
            final(self).entries@ == old(self).entries@,
            final(self).generation == old(self).generation,
    {
        self.active.remove(&generation);
        if generation == self.generation {
            self.state = LibraryState::Loaded;
        }
    }

    /// Whether a search is still running.
    pub fn is_active(&self) -> (res: bool)
        ensures
            res == !self.active@.is_empty(),
    {
        !self.active.is_empty()
    }
}

/// Messages of the library tab. `E` is a search result, `I` a launchable
/// library item.
pub enum Message<E, I> {
    QueryChanged(String),
    Entry { generation: u64, entry: E },
    Loaded(u64),
    Launch(I),
    Launched(Result<u32, CoreFailure>),
}

/// What the library tab asks of the workspace.
#[derive(Debug, Clone, Copy, PartialEq, Eq, Structural)]
pub enum Output {
    Reload,
}

/// Work for the runtime.
pub enum Effect<I> {
    Nothing,
    /// Launch this library item and report with `Launched`.
    Launch(I),
}

/// A search to run: stream the library's results for `query` as `Entry`
/// messages of `generation` until `cancellation` fires, then send `Loaded`.
pub struct SearchRequest {
    pub generation: u64,
    pub cancellation: CancellationToken,
    pub query: String,
}

/// The library tab.
pub struct State<E> {
    pub query: String,
    pub search: Search<E>,
    pub launching: bool,
    pub last_error: Option<String>,
}

impl<E> State<E> {
    /// An empty tab with no search yet.
    pub fn new() -> (state: Self)
        ensures
            state.query@.len() == 0,
            state.search.state == LibraryState::Idle,
            state.search.generation == 0,
            state.search.entries@.len() == 0,
            state.search.active@.is_empty(),
            !state.launching,
            state.last_error is None,
    {
        State { query: String::new(), search: Search::new(), launching: false, last_error: None }
    }

    /// Starts a new search for the current query.
    pub fn reload(&mut self) -> (request: SearchRequest)
        ensures
            request.generation == next_generation(old(self).search.generation),
            request.query@ == old(self).query@,
            final(self).search.generation == request.generation,
            final(self).search.state == LibraryState::Loading,
            final(self).search.entries@.len() == 0,
            final(self).search.active@.dom() == old(self).search.active@.dom().insert(request.generation),
            final(self).query == old(self).query,
            final(self).launching == old(self).launching,
            final(self).last_error == old(self).last_error,
    {
        let (generation, cancellation) = self.search.begin();
        SearchRequest { generation, cancellation, query: self.query.clone() }
    }

    /// What an update does, message by message.
    pub open spec fn update_post<I>(old: Self, message: Message<E, I>, new: Self, res: (Effect<I>, Option<Output>)) -> bool {
        match message {
            Message::QueryChanged(query) => new == State { query, ..old } && res.1 == Some(Output::Reload) && res.0 is Nothing,
            Message::Entry { generation, entry } => {
                &&& res.1 is None && res.0 is Nothing
                &&& new == State { search: new.search, ..old }
                &&& if generation == old.search.generation {
                    &&& new.search.entries@ == old.search.entries@.push(entry)
                    &&& new.search.state == LibraryState::Loaded
                    &&& new.search.generation == old.search.generation
                    &&& new.search.active@ == old.search.active@
                } else {
                    new.search == old.search
                }
            },
            Message::Loaded(generation) => {
                &&& res.1 is None && res.0 is Nothing
                &&& new == State { search: new.search, ..old }
                &&& new.search.active@ == old.search.active@.remove(generation)
                &&& new.search.state == (if generation == old.search.generation { LibraryState::Loaded } else { old.search.state })
                &&& new.search.entries@ == old.search.entries@
                &&& new.search.generation == old.search.generation
            },
            Message::Launch(item) => res.1 is None && if old.launching {
                res.0 is Nothing && new == old
            } else {
                res.0 == Effect::Launch(item) && new == State { launching: true, ..old }
            },
            Message::Launched(result) => {
                &&& res.1 is None && res.0 is Nothing
                &&& new == State {
                    launching: false,
                    last_error: match result {
                        Ok(_) => None,
                        Err(error) => Some(error.text),
                    },
                    ..old
                }
            },
        }
    }

    /// Handles a message of the tab.
    pub fn update<I>(&mut self, message: Message<E, I>) -> (res: (Effect<I>, Option<Output>))
        ensures
            Self::update_post(*old(self), message, *final(self), res),
    {
        match message {
            Message::QueryChanged(query) => {
                self.query = query;
                return (Effect::Nothing, Some(Output::Reload));
            },
            Message::Entry { generation, entry } => self.search.push_entry(generation, entry),
            Message::Loaded(generation) => self.search.finish(generation),
            Message::Launch(item) => {
                if self.launching {
                    return (Effect::Nothing, None);
                }
                self.launching = true;
                return (Effect::Launch(item), None);
            },
            Message::Launched(Err(error)) => {
                self.launching = false;
                self.last_error = Some(error.text);
            },
            Message::Launched(Ok(_)) => {
                self.launching = false;
                self.last_error = None;
            },
        }
        (Effect::Nothing, None)
    }

    /// Whether a launch or a search is still running.
    pub fn has_active_operation(&self) -> (res: bool)
        ensures
            res == (self.launching || !self.search.active@.is_empty()),
    {
        self.launching || self.search.is_active()
    }

    /// Requests cancellation of the running searches.
    pub fn cancel_active_operations(&self) {
        self.search.cancel();
    }

    /// The hint shown instead of results while there are none to show yet.
    pub fn notice(&self) -> (res: Option<(&'static str, &'static str)>)
        ensures
            self.search.state == LibraryState::Idle ==> res == Some(("No active profile", "Sign in to a profile to see its library.")),
            self.search.state == LibraryState::Loading ==> res == Some(("Loading library", "Loading games from this profile's linked storefronts.")),
            self.search.state == LibraryState::Loaded ==> res is None,
    {
        match self.search.state {
            LibraryState::Idle => Some(("No active profile", "Sign in to a profile to see its library.")),
            LibraryState::Loading => Some(("Loading library", "Loading games from this profile's linked storefronts.")),
            LibraryState::Loaded => None,
        }
    }
}

/// An entry of a superseded search leaves the tab as it was.
pub proof fn law_stale_entry_is_ignored<E, I>(
    old: State<E>,
    generation: u64,
    entry: E,
    new: State<E>,
    res: (Effect<I>, Option<Output>),
)
    requires
        generation != old.search.generation,
        State::update_post(old, Message::<E, I>::Entry { generation, entry }, new, res),
    ensures
        new == old,
        res.0 is Nothing,
        res.1 is None,
{
}

} // verus!
