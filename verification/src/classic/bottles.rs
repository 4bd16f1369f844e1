//! Bottles: the new-bottle creation flow and program launches.
//!
//! A creation run is numbered by generation; only the terminal event of the
//! current run ends it. `B` is the core's bottle handle.

use vstd::prelude::*;
use tokio_util::sync::CancellationToken;
use crate::catalog::{Component, Slot};
use crate::format::push_str;
use crate::operation::{bump, cancel_token, next_generation, CoreFailure, Event, Outcome};

verus! {

/// A runner that a new bottle can use.
#[derive(Debug, Clone)]
pub struct RunnerOption {
    pub id: u128,
    pub label: String,
}

impl RunnerOption {
    /// A copy of the option.
    pub fn duplicate(&self) -> (res: RunnerOption)
        ensures
            res == *self,
    {
        RunnerOption { id: self.id, label: self.label.clone() }
    }
}

/// The runner label shown for a component: "`name` `version`".
pub open spec fn runner_label(component: Component) -> Seq<char> {
    component.name@ + " "@ + component.version@
}

pub open spec fn is_runner(component: Component) -> bool {
    component.slot == Slot::Runner
}

/// The runner components of `components`, in order.
pub open spec fn runners_of(components: Seq<Component>) -> Seq<Component> {
    components.filter(|c: Component| is_runner(c))
}

/// The purposes a bottle can be created for.
pub fn purposes() -> (res: Vec<&'static str>)
    ensures
        res@.len() == 4,
        res@[0]@ == "Gaming"@,
        res@[1]@ == "Software"@,
        res@[2]@ == "Gaming (ULWGL)"@,
        res@[3]@ == "Custom"@,
{
    vec!["Gaming", "Software", "Gaming (ULWGL)", "Custom"]
}

/// The architectures a bottle can be created with.
pub fn architectures() -> (res: Vec<&'static str>)
    ensures
        res@.len() == 2,
        res@[0]@ == "Win64"@,
        res@[1]@ == "Win32"@,
{
    vec!["Win64", "Win32"]
}

/// The runner options among the installed components, in order.
pub fn runner_options(components: &Vec<Component>) -> (res: Vec<RunnerOption>)
    ensures
        res@.len() == runners_of(components@).len(),
        forall|k: int| 0 <= k < res@.len() ==>
            res@[k].id == (#[trigger] runners_of(components@)[k]).id
            && res@[k].label@ == runner_label(runners_of(components@)[k]),
{
    let mut res: Vec<RunnerOption> = Vec::new();
    let mut i: usize = 0;
    while i < components.len()
        invariant
            0 <= i <= components.len(),
            res@.len() == runners_of(components@.take(i as int)).len(),
            forall|k: int| 0 <= k < res@.len() ==>
                res@[k].id == (#[trigger] runners_of(components@.take(i as int))[k]).id
                && res@[k].label@ == runner_label(runners_of(components@.take(i as int))[k]),
        decreases components.len() - i,
    {
        let component = &components[i];
        proof {
            reveal(Seq::filter);
            assert(components@.take(i as int + 1).drop_last() =~= components@.take(i as int));
        }
        if component.slot == Slot::Runner {
            let mut label = String::new();
            push_str(&mut label, component.name.as_str());
            push_str(&mut label, " ");
            push_str(&mut label, component.version.as_str());
            res.push(RunnerOption { id: component.id, label });
        }
        i += 1;
    }
    proof {
        assert(components@.take(components.len() as int) =~= components@);
    }
    res
}

/// Messages of the bottles workflow.
pub enum Message<B> {
    CreateBottle,
    BottleCreation(Event<u64, B>),
    BottleNameChanged(String),
    RunnerSelected(RunnerOption),
    PurposeSelected(&'static str),
    ArchitectureSelected(&'static str),
    LaunchProgram { bottle: B, program_id: u128 },
    ProgramLaunched(Result<u32, CoreFailure>),
    Noop,
}

/// What the workflow reports to the workspace.
#[derive(Debug, Clone, Copy, PartialEq, Eq, Structural)]
pub enum Output {
    Created,
}

/// Work for the runtime.
pub enum Effect<B> {
    Nothing,
    /// Create a bottle with this name and runner in standard storage, keyed by
    /// `generation`; hand the operation's token to [`State::attach_creation`].
    Create { name: String, runner: u128, generation: u64 },
    /// Launch the program in the bottle and report with `ProgramLaunched`.
    Launch { bottle: B, program_id: u128 },
}

/// The bottles workflow.
pub struct State {
    pub bottle_name: String,
    pub runners: Vec<RunnerOption>,
    pub selected_runner: Option<RunnerOption>,
    pub purpose: &'static str,
    pub architecture: &'static str,
    pub creation_generation: u64,
    pub creation_cancellation: Option<CancellationToken>,
    pub program_launches: usize,
    pub last_error: Option<String>,
}

pub open spec fn error_text(error: Option<String>) -> Option<Seq<char>> {
    match error {
        Some(text) => Some(text@),
        None => None,
    }
}

impl State {
    /// The initial workflow for the installed components: their runners are
    /// offered and the first one is selected.
    pub fn new(components: &Vec<Component>) -> (state: Self)
        ensures
            state.bottle_name@ == "Gaming paradise"@,
            state.runners@.len() == runners_of(components@).len(),
            state.selected_runner == (if state.runners@.len() > 0 { Some(state.runners@[0]) } else { None }),
            state.purpose@ == "Gaming"@,
            state.architecture@ == "Win64"@,
            state.creation_generation == 0,
            state.creation_cancellation is None,
            state.program_launches == 0,
            state.last_error is None,
    {
        let runners = runner_options(components);
        let selected_runner = if runners.len() > 0 { Some(runners[0].duplicate()) } else { None };
        State {
            bottle_name: String::from_str("Gaming paradise"),
            runners,
            selected_runner,
            purpose: "Gaming",
            architecture: "Win64",
            creation_generation: 0,
            creation_cancellation: None,
            program_launches: 0,
            last_error: None,
        }
    }

    /// Clears the error of the creation form.
    pub fn reset_creation(&mut self)
        ensures
            *final(self) == (State { last_error: None, ..*old(self) }),
            final(self).last_error is None,
            final(self).creation_cancellation == old(self).creation_cancellation,
            final(self).program_launches == old(self).program_launches,
    {
        self.last_error = None;
    }

    /// Requests cancellation of the running creation, which stays active
    /// until its terminal event.
    pub fn cancel_creation(&self) {
        if let Some(cancellation) = &self.creation_cancellation {
            cancel_token(cancellation);
        }
    }

    /// Whether a creation or a program launch is running.
    pub fn has_active_operation(&self) -> (res: bool)
        ensures
            res == (self.creation_cancellation is Some || self.program_launches > 0),
    {
        self.creation_cancellation.is_some() || self.program_launches > 0
    }

    /// Registers the cancellation token of the creation started for
    /// [`Effect::Create`].
    pub fn attach_creation(&mut self, cancellation: CancellationToken)
        ensures
            final(self).creation_cancellation == Some(cancellation),
            final(self).creation_generation == old(self).creation_generation,
            final(self).program_launches == old(self).program_launches,
            final(self).last_error == old(self).last_error,
    {
        self.creation_cancellation = Some(cancellation);
    }

    /// What an update does, message by message.
    pub open spec fn update_post<B>(old: State, message: Message<B>, new: State, res: (Effect<B>, Option<Output>)) -> bool {
        match message {
            Message::CreateBottle => {
                &&& res.1 is None
                &&& if old.creation_cancellation is None && old.selected_runner is Some {
                    &&& res.0 matches Effect::Create { name, runner, generation }
                        && name@ == old.bottle_name@ && runner == old.selected_runner.unwrap().id
                        && generation == next_generation(old.creation_generation)
                    &&& new == State { creation_generation: next_generation(old.creation_generation), last_error: None, ..old }
                } else {
                    res.0 is Nothing && new == old
                }
            },
            Message::BottleCreation(event) => match event {
                Event::Finished { key, outcome } if key == old.creation_generation => {
                    &&& res.0 is Nothing
                    &&& match outcome {
                        Outcome::Succeeded(_) => res.1 == Some(Output::Created)
                            && new == State { creation_cancellation: None, last_error: None, ..old },
                        Outcome::Cancelled => res.1 is None
                            && error_text(new.last_error) == Some("Bottle creation was cancelled."@)
                            && new == State { creation_cancellation: None, last_error: new.last_error, ..old },
                        Outcome::Failed(error) => res.1 is None
                            && new == State { creation_cancellation: None, last_error: Some(error.text), ..old },
                    }
                },
                _ => res.0 is Nothing && res.1 is None && new == old,
            },
            Message::BottleNameChanged(name) => res.0 is Nothing && res.1 is None && new == State { bottle_name: name, ..old },
            Message::RunnerSelected(runner) => res.0 is Nothing && res.1 is None
                && new == State { selected_runner: Some(runner), ..old },
            Message::PurposeSelected(purpose) => res.0 is Nothing && res.1 is None && new == State { purpose, ..old },
            Message::ArchitectureSelected(architecture) => res.0 is Nothing && res.1 is None
                && new == State { architecture, ..old },
            Message::LaunchProgram { bottle, program_id } => {
                &&& new == State { program_launches: (old.program_launches + 1) as usize, ..old }
                &&& res.0 == (Effect::Launch { bottle, program_id })
                &&& res.1 is None
            },
            Message::ProgramLaunched(result) => {
                &&& new == State {
                    program_launches: (if old.program_launches > 0 { old.program_launches - 1 } else { 0 }) as usize,
                    last_error: match result {
                        Ok(_) => None,
                        Err(error) => Some(error.text),
                    },
                    ..old
                }
                &&& res.0 is Nothing
                &&& res.1 is None
            },
            Message::Noop => res.0 is Nothing && res.1 is None && new == old,
        }
    }

    /// Handles a message of the workflow.
    pub fn update<B>(&mut self, message: Message<B>) -> (res: (Effect<B>, Option<Output>))
        requires
            message is LaunchProgram ==> old(self).program_launches < usize::MAX,
        ensures
            State::update_post(*old(self), message, *final(self), res),
    {
        match message {
            Message::CreateBottle => {
                if self.creation_cancellation.is_none() {
                    if let Some(runner) = &self.selected_runner {
                        let runner_id = runner.id;
                        let name = self.bottle_name.clone();
                        self.creation_generation = bump(self.creation_generation);
                        self.last_error = None;
                        return (Effect::Create { name, runner: runner_id, generation: self.creation_generation }, None);
                    }
                }
                (Effect::Nothing, None)
            },
            Message::BottleCreation(event) => {
                match event {
                    Event::Finished { key, outcome } => {
                        if key == self.creation_generation {
                            self.creation_cancellation = None;
                            match outcome {
                                Outcome::Succeeded(_) => {
                                    self.last_error = None;
                                    return (Effect::Nothing, Some(Output::Created));
                                },
                                Outcome::Cancelled => {
                                    self.last_error = Some(String::from_str("Bottle creation was cancelled."));
                                },
                                Outcome::Failed(error) => {
                                    self.last_error = Some(error.text);
                                },
                            }
                        }
                    },
                    Event::Progress { .. } => {},
                }
                (Effect::Nothing, None)
            },
            Message::BottleNameChanged(name) => {
                self.bottle_name = name;
                (Effect::Nothing, None)
            },
            Message::RunnerSelected(runner) => {
                self.selected_runner = Some(runner);
                (Effect::Nothing, None)
            },
            Message::PurposeSelected(purpose) => {
                self.purpose = purpose;
                (Effect::Nothing, None)
            },
            Message::ArchitectureSelected(architecture) => {
                self.architecture = architecture;
                (Effect::Nothing, None)
            },
            Message::LaunchProgram { bottle, program_id } => {
                self.program_launches = self.program_launches + 1;
                (Effect::Launch { bottle, program_id }, None)
            },
            Message::ProgramLaunched(result) => {
                self.program_launches = self.program_launches.saturating_sub(1);
                match result {
                    Err(error) => self.last_error = Some(error.text),
                    Ok(_) => self.last_error = None,
                }
                (Effect::Nothing, None)
            },
            Message::Noop => (Effect::Nothing, None),
        }
    }
}

/// The end of a superseded creation leaves the form as it was and reports
/// nothing.
pub proof fn law_stale_creation_result_is_ignored<B>(
    old: State,
    key: u64,
    outcome: Outcome<B>,
    new: State,
    res: (Effect<B>, Option<Output>),
)
    requires
        key != old.creation_generation,
        State::update_post(old, Message::BottleCreation(Event::Finished { key, outcome }), new, res),
    ensures
        new == old,
        res.0 is Nothing,
        res.1 is None,
{
}

} // verus!
