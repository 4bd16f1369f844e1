//! The bottle settings tab: toggling the Gamescope and MangoHud wrappers of
//! the selected bottle. Only the newest wrapper request's result is applied.

use vstd::prelude::*;
use crate::operation::{bump, next_generation, CoreFailure};

verus! {

/// What the tab knows of the selected bottle.
#[derive(Debug, Clone, Copy, PartialEq, Eq, Structural)]
pub struct Context {
    /// A bottle is selected.
    pub has_bottle: bool,
    /// The selected bottle's state is known.
    pub has_state: bool,
}

/// Messages of the settings tab.
pub enum Message {
    ToggleGamescope(bool),
    ToggleMangoHud(bool),
    WrapperUpdated { generation: u64, result: Result<(), CoreFailure> },
}

/// Work for the runtime.
#[derive(Debug, Clone, Copy, PartialEq, Eq, Structural)]
pub enum Effect {
    Nothing,
    /// Commit the bottle's Gamescope configuration with `enabled` and report
    /// with `WrapperUpdated` of `generation`.
    SetGamescope { generation: u64, enabled: bool },
    /// Commit the bottle's MangoHud configuration with `enabled` and report
    /// with `WrapperUpdated` of `generation`.
    SetMangoHud { generation: u64, enabled: bool },
}

pub open spec fn text_of(error: Option<String>) -> Option<Seq<char>> {
    match error {
        Some(text) => Some(text@),
        None => None,
    }
}

/// The settings tab.
pub struct State {
    pub generation: u64,
    pub pending: bool,
    pub last_error: Option<String>,
}

impl State {
    /// No request yet.
    pub fn new() -> (state: Self)
        ensures
            state.generation == 0,
            !state.pending,
            state.last_error is None,
    {
        State { generation: 0, pending: false, last_error: None }
    }

    fn next_generation(&mut self) -> (res: u64)
        ensures
            res == next_generation(old(self).generation),
            final(self).generation == res,
            final(self).pending,
            final(self).last_error is None,
    {
        self.generation = bump(self.generation);
        self.pending = true;
        self.last_error = None;
        self.generation
    }

    /// What an update does, message by message.
    pub open spec fn update_post(old: State, message: Message, ctx: Context, new: State, effect: Effect) -> bool {
        match message {
            Message::ToggleGamescope(enabled) => if !old.pending && ctx.has_bottle && ctx.has_state {
                &&& effect == (Effect::SetGamescope { generation: next_generation(old.generation), enabled })
                &&& new == (State { generation: next_generation(old.generation), pending: true, last_error: None })
            } else {
                effect == Effect::Nothing && new == old
            },
            Message::ToggleMangoHud(enabled) => if !old.pending && ctx.has_bottle {
                &&& effect == (Effect::SetMangoHud { generation: next_generation(old.generation), enabled })
                &&& new == (State { generation: next_generation(old.generation), pending: true, last_error: None })
            } else {
                effect == Effect::Nothing && new == old
            },
            Message::WrapperUpdated { generation, result } => {
                &&& effect == Effect::Nothing
                &&& if generation == old.generation {
                    &&& new == State { pending: false, last_error: new.last_error, ..old }
                    &&& text_of(new.last_error) == match result { Ok(()) => None, Err(error) => Some(error.text@) }
                } else {
                    new == old
                }
            },
        }
    }

    /// Handles a message of the tab.
    pub fn update(&mut self, message: Message, ctx: Context) -> (effect: Effect)
        ensures
            State::update_post(*old(self), message, ctx, *final(self), effect),
    {
        match message {
            Message::ToggleGamescope(enabled) => {
                if !self.pending && ctx.has_bottle && ctx.has_state {
                    let generation = self.next_generation();
                    return Effect::SetGamescope { generation, enabled };
                }
            },
            Message::ToggleMangoHud(enabled) => {
                if !self.pending && ctx.has_bottle {
                    let generation = self.next_generation();
                    return Effect::SetMangoHud { generation, enabled };
                }
            },
            Message::WrapperUpdated { generation, result } => {
                if generation == self.generation {
                    self.last_error = match result {
                        Ok(()) => None,
                        Err(error) => Some(error.text),
                    };
                    self.pending = false;
                }
            },
        }
        Effect::Nothing
    }

    /// Whether a wrapper change is running.
    pub fn has_active_operation(&self) -> (res: bool)
        ensures
            res == self.pending,
    {
        self.pending
    }
}

/// The result of a superseded wrapper change leaves the tab as it was.
pub proof fn law_stale_wrapper_result_is_ignored(
    old: State,
    generation: u64,
    result: Result<(), CoreFailure>,
    ctx: Context,
    new: State,
    effect: Effect,
)
    requires
        generation != old.generation,
        State::update_post(old, Message::WrapperUpdated { generation, result }, ctx, new, effect),
    ensures
        new == old,
        effect == Effect::Nothing,
{
}

} // verus!
