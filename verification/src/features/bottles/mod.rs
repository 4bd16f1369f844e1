//! The new-bottle form of the streaming client and its creation log, and the
//! log's time stamps.
//!
//! The bottle store itself stays with the host: it opens the store, creates
//! bottles and launches programs when the form asks, and reports back with a
//! [`Message`].

use vstd::prelude::*;
use crate::clock::{clock_text, timestamp_at, unix_now};
use crate::format::{push_char, push_str};

verus! {

/// Name the form starts with.
pub const DEFAULT_BOTTLE_NAME: &'static str = "Gaming paradise";

/// Purpose the form starts with.
pub const DEFAULT_PURPOSE: &'static str = "Gaming";

/// Architecture the form starts with.
pub const DEFAULT_ARCHITECTURE: &'static str = "Win64";

/// A runner the form offers: its component id and its label, `name version`.
#[derive(Debug)]
pub struct RunnerOption {
    pub id: u128,
    pub label: String,
}

impl RunnerOption {
    /// A copy of the option.
    pub fn copy(&self) -> (res: Self)
        ensures
            res == *self,
    {
        RunnerOption { id: self.id, label: self.label.clone() }
    }
}

/// An input of the form.
#[derive(Debug)]
pub enum Message {
    AddBottle,
    CreateBottle,
    /// A line of creation progress, as the log shows it.
    BottleCreationProgress(String),
    /// The creation ended: with a bottle, or with the reason it failed.
    BottleCreated(Result<(), String>),
    ToggleCreationLog,
    BottleNameChanged(String),
    RunnerSelected(RunnerOption),
    PurposeSelected(String),
    ArchitectureSelected(String),
    /// The bottle store opened, offering these runners and listing the
    /// bottles with these ids; or it could not be opened, for this reason.
    BottlesLoaded(Result<(Vec<RunnerOption>, Vec<u128>), String>),
    /// The store lists the bottles with these ids now.
    BottleListChanged(Vec<u128>),
    /// Launch a program of the selected bottle; the shell resolves the bottle.
    LaunchProgram(u128),
    ProgramLaunched(Result<u32, String>),
    Noop,
}

/// Work for the host.
#[derive(Debug)]
pub enum Effect {
    Nothing,
    /// Create a bottle with this name and runner, reporting its progress with
    /// `BottleCreationProgress` and its end with `BottleCreated`.
    CreateBottle { name: String, runner_id: u128 },
}

/// The new-bottle form.
#[derive(Debug)]
pub struct State {
    /// The bottle store is open.
    pub loaded: bool,
    /// The ids of the bottles the store lists whose state could be read.
    pub bottle_ids: Vec<u128>,
    pub bottle_name: String,
    pub runners: Vec<RunnerOption>,
    pub selected_runner: Option<RunnerOption>,
    pub purpose: String,
    pub architecture: String,
    pub creation_log: String,
    pub creation_log_expanded: bool,
    pub creation_failed: bool,
}

/// `log` with `line` added as its last line.
pub open spec fn with_line(log: Seq<char>, line: Seq<char>) -> Seq<char> {
    if log.len() == 0 { line } else { log + seq!['\n'] + line }
}

/// The log line of a failed creation, stamped with the clock reading `seconds`.
pub open spec fn failure_line(seconds: nat, reason: Seq<char>) -> Seq<char> {
    clock_text(seconds) + " Failed: "@ + reason
}

/// The form cleared of an earlier creation's log.
pub open spec fn creation_reset(old: State, new: State) -> bool {
    &&& new.creation_log@.len() == 0
    &&& new == State { creation_log: new.creation_log, creation_failed: false, ..old }
}

/// The runner the form selects when the store opens.
pub open spec fn first_runner(runners: Seq<RunnerOption>) -> Option<RunnerOption> {
    if runners.len() > 0 { Some(runners[0]) } else { None }
}

impl State {
    /// The form before the bottle store opened.
    pub fn new() -> (state: Self)
        ensures
            !state.loaded,
            state.bottle_ids@.len() == 0,
            state.bottle_name@ == DEFAULT_BOTTLE_NAME@,
            state.runners@.len() == 0,
            state.selected_runner is None,
            state.purpose@ == DEFAULT_PURPOSE@,
            state.architecture@ == DEFAULT_ARCHITECTURE@,
            state.creation_log@.len() == 0,
            !state.creation_log_expanded,
            !state.creation_failed,
    {
        State {
            loaded: false,
            bottle_ids: Vec::new(),
            bottle_name: String::from_str(DEFAULT_BOTTLE_NAME),
            runners: Vec::new(),
            selected_runner: None,
            purpose: String::from_str(DEFAULT_PURPOSE),
            architecture: String::from_str(DEFAULT_ARCHITECTURE),
            creation_log: String::new(),
            creation_log_expanded: false,
            creation_failed: false,
        }
    }

    /// Whether the store lists the bottle with this id.
    pub fn lists(&self, id: u128) -> (res: bool)
        ensures
            res == self.bottle_ids@.contains(id),
    {
        let mut k: usize = 0;
        while k < self.bottle_ids.len()
            invariant
                0 <= k <= self.bottle_ids@.len(),
                forall|j: int| 0 <= j < k ==> self.bottle_ids@[j] != id,
            decreases self.bottle_ids@.len() - k,
        {
            if self.bottle_ids[k] == id {
                assert(self.bottle_ids@[k as int] == id);
                return true;
            }
            k += 1;
        }
        false
    }

    /// Clears the log of an earlier creation.
    pub fn reset_creation(&mut self)
        ensures
            creation_reset(*old(self), *final(self)),
    {
        self.creation_log = String::new();
        self.creation_failed = false;
    }

    /// Adds `line` to the creation log.
    fn log_line(&mut self, line: &str)
        ensures
            final(self).creation_log@ == with_line(old(self).creation_log@, line@),
            *final(self) == (State { creation_log: final(self).creation_log, ..*old(self) }),
    {
        if self.creation_log.unicode_len() > 0 {
            push_char(&mut self.creation_log, '\n');
        }
        push_str(&mut self.creation_log, line);
    }

    /// What an update does, message by message.
    pub open spec fn update_post(old: State, message: Message, new: State, effect: Effect) -> bool {
        match message {
            Message::AddBottle => creation_reset(old, new) && effect is Nothing,
            Message::CreateBottle => match old.selected_runner {
                Some(runner) if old.loaded => {
                    &&& new.creation_log@.len() == 0
                    &&& new == State {
                        creation_log: new.creation_log,
                        creation_failed: false,
                        creation_log_expanded: true,
                        ..old
                    }
                    &&& effect matches Effect::CreateBottle { name, runner_id }
                        && name@ == old.bottle_name@ && runner_id == runner.id
                },
                _ => new == old && effect is Nothing,
            },
            Message::BottleCreationProgress(line) => {
                &&& new.creation_log@ == with_line(old.creation_log@, line@)
                &&& new == State { creation_log: new.creation_log, ..old }
                &&& effect is Nothing
            },
            Message::BottleCreated(result) => match result {
                Ok(_) => new == old && effect is Nothing,
                Err(reason) => {
                    &&& exists|seconds: nat| new.creation_log@ == with_line(old.creation_log@, #[trigger] failure_line(seconds, reason@))
                    &&& new == State { creation_log: new.creation_log, creation_failed: true, ..old }
                    &&& effect is Nothing
                },
            },
            Message::ToggleCreationLog => {
                new == State { creation_log_expanded: !old.creation_log_expanded, ..old } && effect is Nothing
            },
            Message::BottleNameChanged(name) => new == State { bottle_name: name, ..old } && effect is Nothing,
            Message::RunnerSelected(runner) => new == State { selected_runner: Some(runner), ..old } && effect is Nothing,
            Message::PurposeSelected(purpose) => new == State { purpose, ..old } && effect is Nothing,
            Message::ArchitectureSelected(architecture) => new == State { architecture, ..old } && effect is Nothing,
            Message::BottlesLoaded(result) => match result {
                Ok((runners, ids)) => {
                    &&& new == State {
                        loaded: true,
                        runners,
                        selected_runner: first_runner(runners@),
                        bottle_ids: ids,
                        ..old
                    }
                    &&& effect is Nothing
                },
                Err(_) => new == old && effect is Nothing,
            },
            Message::BottleListChanged(ids) => new == State { bottle_ids: ids, ..old } && effect is Nothing,
            Message::LaunchProgram(_) | Message::ProgramLaunched(_) | Message::Noop => {
                new == old && effect is Nothing
            },
        }
    }

    /// Handles a message.
    pub fn update(&mut self, message: Message) -> (effect: Effect)
        ensures
            Self::update_post(*old(self), message, *final(self), effect),
    {
        match message {
            Message::AddBottle => {
                self.reset_creation();
                Effect::Nothing
            },
            Message::CreateBottle => {
                if self.loaded {
                    match &self.selected_runner {
                        Some(runner) => {
                            let runner_id = runner.id;
                            let name = self.bottle_name.clone();
                            self.creation_log = String::new();
                            self.creation_failed = false;
                            self.creation_log_expanded = true;
                            Effect::CreateBottle { name, runner_id }
                        },
                        None => Effect::Nothing,
                    }
                } else {
                    Effect::Nothing
                }
            },
            Message::BottleCreationProgress(line) => {
                self.log_line(line.as_str());
                Effect::Nothing
            },
            Message::BottleCreated(result) => {
                match result {
                    Ok(_) => {},
                    Err(reason) => {
                        self.creation_failed = true;
                        let line = failure_entry(reason.as_str());
                        self.log_line(line.as_str());
                    },
                }
                Effect::Nothing
            },
            Message::ToggleCreationLog => {
                self.creation_log_expanded = !self.creation_log_expanded;
                Effect::Nothing
            },
            Message::BottleNameChanged(name) => {
                self.bottle_name = name;
                Effect::Nothing
            },
            Message::RunnerSelected(runner) => {
                self.selected_runner = Some(runner);
                Effect::Nothing
            },
            Message::PurposeSelected(purpose) => {
                self.purpose = purpose;
                Effect::Nothing
            },
            Message::ArchitectureSelected(architecture) => {
                self.architecture = architecture;
                Effect::Nothing
            },
            Message::BottlesLoaded(result) => {
                match result {
                    Ok((runners, ids)) => {
                        self.selected_runner = if runners.len() > 0 { Some(runners[0].copy()) } else { None };
                        self.runners = runners;
                        self.bottle_ids = ids;
                        self.loaded = true;
                    },
                    Err(_) => {},
                }
                Effect::Nothing
            },
            Message::BottleListChanged(ids) => {
                self.bottle_ids = ids;
                Effect::Nothing
            },
            Message::LaunchProgram(_) | Message::ProgramLaunched(_) | Message::Noop => {
                Effect::Nothing
            },
        }
    }
}

/// The log line of a failed creation, stamped with the current time of day.
pub fn failure_entry(reason: &str) -> (res: String)
    ensures
        exists|seconds: nat| res@ == #[trigger] failure_line(seconds, reason@),
{
    let mut line = timestamp();
    let ghost seconds = choose|seconds: nat| line@ == clock_text(seconds);
    push_str(&mut line, " Failed: ");
    push_str(&mut line, reason);
    assert(line@ == failure_line(seconds, reason@));
    line
}

/// The current time of day, as `HH:MM:SS` in UTC; a clock before the Unix
/// epoch reads as midnight.
pub fn timestamp() -> (res: String)
    ensures
        exists|seconds: nat| res@ == clock_text(seconds),
{
    let seconds = match unix_now() {
        Some(seconds) => seconds,
        None => 0,
    };
    timestamp_at(seconds)
}

} // verus!
