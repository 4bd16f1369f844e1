//! The bottle snapshots tab. Loads are numbered by generation; a load stays
//! active until its own result arrives, and only the newest load's result
//! is shown.

use std::collections::HashMap;
use vstd::prelude::*;
use tokio_util::sync::CancellationToken;
use crate::clock::{elapsed, relative_text, relative_time};
use crate::format::push_char;
use crate::operation::{bump, cancel_token, new_token, next_generation, share_token, CoreFailure};

verus! {

broadcast use vstd::std_specs::hash::group_hash_axioms;

/// What the tab reads of a snapshot.
#[derive(Debug, Clone)]
pub struct SnapshotSummary {
    pub message: String,
    pub state_id: String,
    /// Unix time of creation, when known.
    pub created_at: Option<i64>,
}

/// The title of a snapshot: its message, or the first twelve characters of
/// its state id when the message is empty.
pub open spec fn title_spec(snapshot: SnapshotSummary) -> Seq<char> {
    if snapshot.message@.len() == 0 {
        snapshot.state_id@.take(if snapshot.state_id@.len() < 12 { snapshot.state_id@.len() as int } else { 12 })
    } else {
        snapshot.message@
    }
}

/// The title shown for a snapshot.
pub fn snapshot_title(snapshot: &SnapshotSummary) -> (res: String)
    ensures
        res@ == title_spec(*snapshot),
{
    let message = snapshot.message.as_str();
    if message.unicode_len() != 0 {
        return snapshot.message.clone();
    }
    let id = snapshot.state_id.as_str();
    let len = id.unicode_len();
    let count = if len < 12 { len } else { 12 };
    let mut out = String::new();
    let mut i: usize = 0;
    while i < count
        invariant
            0 <= i <= count,
            count <= len,
            len == id@.len(),
            id@ == snapshot.state_id@,
            out@ == id@.take(i as int),
        decreases count - i,
    {
        push_char(&mut out, id.get_char(i));
        proof {
            assert(id@.take(i as int + 1) =~= id@.take(i as int).push(id@[i as int]));
        }
        i += 1;
    }
    out
}

/// Whether `description` is what the tab shows for a creation time: nothing
/// when it is unknown, else its time relative to some clock reading.
pub open spec fn description_fits(created_at: Option<i64>, description: Seq<char>) -> bool {
    match created_at {
        None => description.len() == 0,
        Some(seconds) => exists|now: Option<u64>| description == relative_text(elapsed(now, seconds)),
    }
}

/// Messages of the snapshots tab.
pub enum Message {
    Loaded { generation: u64, result: Option<Result<Vec<SnapshotSummary>, CoreFailure>> },
    Noop,
}

/// A load to run: list the bottle's snapshots until `cancellation` fires,
/// then send `Loaded` of `generation` (with no result when cancelled).
pub struct LoadRequest {
    pub generation: u64,
    pub cancellation: CancellationToken,
}

/// The snapshots tab.
pub struct State {
    pub snapshots: Vec<SnapshotSummary>,
    pub snapshot_rows: Vec<(String, String)>,
    pub generation: u64,
    pub loads: HashMap<u64, CancellationToken>,
    pub last_error: Option<String>,
}

impl State {
    /// Nothing loaded.
    pub fn new() -> (state: Self)
        ensures
            state.snapshots@.len() == 0,
            state.snapshot_rows@.len() == 0,
            state.generation == 0,
            state.loads@.is_empty(),
            state.last_error is None,
    {
        State { snapshots: Vec::new(), snapshot_rows: Vec::new(), generation: 0, loads: HashMap::new(), last_error: None }
    }

    /// Requests cancellation of running loads and empties the tab; the loads
    /// stay active until their results arrive.
    pub fn clear(&mut self)
        ensures
            final(self).snapshots@.len() == 0,
            final(self).snapshot_rows@.len() == 0,
            final(self).last_error is None,
            final(self).loads@ == old(self).loads@,
            final(self).generation == old(self).generation,
    {
        self.cancel_active_operations();
        self.snapshots.clear();
        self.snapshot_rows.clear();
        self.last_error = None;
    }

    /// Starts loading the selected bottle's snapshots.
    pub fn load(&mut self) -> (request: LoadRequest)
        ensures
            request.generation == next_generation(old(self).generation),
            final(self).generation == request.generation,
            final(self).loads@ == old(self).loads@.insert(request.generation, final(self).loads@[request.generation]),
            final(self).snapshots@.len() == 0,
            final(self).snapshot_rows@.len() == 0,
            final(self).last_error is None,
    {
        self.clear();
        self.generation = bump(self.generation);
        let generation = self.generation;
        let cancellation = new_token();
        self.loads.insert(generation, share_token(&cancellation));
        LoadRequest { generation, cancellation }
    }

    fn rows(snapshots: &Vec<SnapshotSummary>) -> (rows: Vec<(String, String)>)
        ensures
            rows@.len() == snapshots@.len(),
            forall|k: int| 0 <= k < rows@.len() ==> (#[trigger] rows@[k]).0@ == title_spec(snapshots@[k])
                && description_fits(snapshots@[k].created_at, rows@[k].1@),
    {
        let mut rows: Vec<(String, String)> = Vec::new();
        let mut i: usize = 0;
        while i < snapshots.len()
            invariant
                0 <= i <= snapshots.len(),
                rows@.len() == i,
                forall|k: int| 0 <= k < i ==> (#[trigger] rows@[k]).0@ == title_spec(snapshots@[k])
                    && description_fits(snapshots@[k].created_at, rows@[k].1@),
            decreases snapshots.len() - i,
        {
            let snapshot = &snapshots[i];
            let title = snapshot_title(snapshot);
            let description = match snapshot.created_at {
                Some(seconds) => relative_time(seconds),
                None => String::new(),
            };
            rows.push((title, description));
            i += 1;
        }
        rows
    }

    /// What an update does, message by message.
    pub open spec fn update_post(old: State, message: Message, new: State) -> bool {
        match message {
            Message::Noop => new == old,
            Message::Loaded { generation, result } => {
                &&& new.loads@ == old.loads@.remove(generation)
                &&& if generation == old.generation {
                    match result {
                        Some(Ok(snapshots)) => {
                            &&& new == State {
                                snapshots,
                                snapshot_rows: new.snapshot_rows,
                                loads: new.loads,
                                last_error: None,
                                ..old
                            }
                            &&& new.snapshot_rows@.len() == snapshots@.len()
                            &&& forall|k: int| 0 <= k < snapshots@.len() ==>
                                (#[trigger] new.snapshot_rows@[k]).0@ == title_spec(snapshots@[k])
                                && description_fits(snapshots@[k].created_at, new.snapshot_rows@[k].1@)
                        },
                        Some(Err(error)) => new == State { loads: new.loads, last_error: Some(error.text), ..old },
                        None => new == State { loads: new.loads, ..old },
                    }
                } else {
                    new == State { loads: new.loads, ..old }
                }
            },
        }
    }

    /// Applies a load's result: the load is no longer active, and the result
    /// is shown only when it belongs to the newest load.
    pub fn update(&mut self, message: Message)
        ensures
            State::update_post(*old(self), message, *final(self)),
    {
        match message {
            Message::Noop => {},
            Message::Loaded { generation, result } => {
                self.loads.remove(&generation);
                if generation == self.generation {
                    match result {
                        Some(Ok(snapshots)) => {
                            self.snapshot_rows = Self::rows(&snapshots);
                            self.snapshots = snapshots;
                            self.last_error = None;
                        },
                        Some(Err(error)) => self.last_error = Some(error.text),
                        None => {},
                    }
                }
            },
        }
    }

    /// Whether a load is still running.
    pub fn has_active_operation(&self) -> (res: bool)
        ensures
            res == !self.loads@.is_empty(),
    {
        !self.loads.is_empty()
    }

    /// Requests cancellation of every running load.
    pub fn cancel_active_operations(&self) {
        for token in self.loads.values() {
            cancel_token(token);
        }
    }
}

/// The result of a superseded load changes nothing shown: the snapshot
/// list, its rows, the error and the newest load stay as they were; the
/// load only stops being active.
pub proof fn law_stale_load_only_ends_the_load(
    old: State,
    generation: u64,
    result: Option<Result<Vec<SnapshotSummary>, CoreFailure>>,
    new: State,
)
    requires
        generation != old.generation,
        State::update_post(old, Message::Loaded { generation, result }, new),
    ensures
        new.snapshots == old.snapshots,
        new.snapshot_rows == old.snapshot_rows,
        new.last_error == old.last_error,
        new.generation == old.generation,
        new.loads@ == old.loads@.remove(generation),
{
}

} // verus!
