//! The Snapshots tab of the streaming client: each snapshot as a title and
//! the age of the snapshot.

use vstd::prelude::*;
use crate::classic::snapshots::{snapshot_title, title_spec, SnapshotSummary};
use crate::clock::{elapsed, relative_text, relative_time_at, unix_now};

verus! {

/// A message of the tab.
#[derive(Debug)]
pub enum Message {
    /// The snapshots of the selected bottle were read, or reading failed.
    Loaded(Result<Vec<SnapshotSummary>, String>),
    Noop,
}

/// The rows shown: a title and a description for each snapshot.
pub struct State {
    pub snapshots: Vec<SnapshotSummary>,
    pub snapshot_rows: Vec<(String, String)>,
}

/// The description of a snapshot, given the clock reading `now`: how long ago
/// it was made, or nothing when the time is unknown.
pub open spec fn description_spec(snapshot: SnapshotSummary, now: Option<u64>) -> Seq<char> {
    match snapshot.created_at {
        Some(seconds) => relative_text(elapsed(now, seconds)),
        None => Seq::empty(),
    }
}

/// Whether each row shows its snapshot: the title, and the age against `now`.
pub open spec fn rows_match(rows: Seq<(String, String)>, snapshots: Seq<SnapshotSummary>, now: Option<u64>) -> bool {
    &&& rows.len() == snapshots.len()
    &&& forall|k: int| 0 <= k < rows.len() ==> {
        &&& (#[trigger] rows[k]).0@ == title_spec(snapshots[k])
        &&& rows[k].1@ == description_spec(snapshots[k], now)
    }
}

/// Describes the Unix time `seconds` relative to now.
pub fn relative_time(seconds: i64) -> (res: String)
    ensures
        exists|now: Option<u64>| res@ == relative_text(elapsed(now, seconds)),
{
    crate::clock::relative_time(seconds)
}

/// The rows for these snapshots, their ages taken against the clock reading `now`.
pub fn rows_at(snapshots: &Vec<SnapshotSummary>, now: Option<u64>) -> (rows: Vec<(String, String)>)
    ensures
        rows_match(rows@, snapshots@, now),
{
    let mut rows: Vec<(String, String)> = Vec::new();
    let mut i: usize = 0;
    while i < snapshots.len()
        invariant
            0 <= i <= snapshots@.len(),
            rows@.len() == i,
            forall|k: int| 0 <= k < i ==> {
                &&& (#[trigger] rows@[k]).0@ == title_spec(snapshots@[k])
                &&& rows@[k].1@ == description_spec(snapshots@[k], now)
            },
        decreases snapshots@.len() - i,
    {
        let snapshot = &snapshots[i];
        let title = snapshot_title(snapshot);
        let description = match snapshot.created_at {
            Some(seconds) => relative_time_at(now, seconds),
            None => String::new(),
        };
        rows.push((title, description));
        i += 1;
    }
    rows
}

impl State {
    /// No snapshots.
    pub fn new() -> (state: Self)
        ensures
            state.snapshots@.len() == 0,
            state.snapshot_rows@.len() == 0,
    {
        State { snapshots: Vec::new(), snapshot_rows: Vec::new() }
    }

    /// Forgets the shown snapshots.
    pub fn clear(&mut self)
        ensures
            final(self).snapshots@.len() == 0,
            final(self).snapshot_rows@.len() == 0,
    {
        self.snapshots = Vec::new();
        self.snapshot_rows = Vec::new();
    }

    /// What an update does to the tab: the snapshots read replace the shown
    /// ones, with their ages against some clock reading; a failure leaves the
    /// tab as it was.
    pub open spec fn update_post(old: State, message: Message, new: State) -> bool {
        match message {
            Message::Loaded(Ok(snapshots)) => {
                &&& new.snapshots == snapshots
                &&& exists|now: Option<u64>| #[trigger] rows_match(new.snapshot_rows@, snapshots@, now)
            },
            _ => new == old,
        }
    }

    /// Takes the result of reading the snapshots.
    pub fn update(&mut self, message: Message)
        ensures
            State::update_post(*old(self), message, *final(self)),
    {
        match message {
            Message::Loaded(Ok(snapshots)) => {
                let now = unix_now();
                self.snapshot_rows = rows_at(&snapshots, now);
                self.snapshots = snapshots;
                assert(rows_match(self.snapshot_rows@, self.snapshots@, now));
            },
            Message::Loaded(Err(_)) => {},
            Message::Noop => {},
        }
    }
}

} // verus!
