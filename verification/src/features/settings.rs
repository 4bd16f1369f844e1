//! The bottle settings tab of the streaming client: toggling the Gamescope
//! and MangoHud wrappers of the selected bottle. The tab keeps no state of
//! its own; what it knows of the bottle comes in a [`Context`].

use vstd::prelude::*;

verus! {

/// What the host holds of the selected bottle.
#[derive(Debug, Clone, Copy, PartialEq, Eq, Structural)]
pub struct Context {
    /// A handle to the bottle.
    pub has_bottle: bool,
    /// The bottle's state, with its wrapper configuration.
    pub has_state: bool,
}

/// An input of the tab.
#[derive(Debug)]
pub enum Message {
    ToggleGamescope(bool),
    ToggleMangoHud(bool),
    /// A wrapper change was committed, or failed for this reason.
    WrapperUpdated(Result<(), String>),
}

/// Work for the host.
#[derive(Debug, Clone, Copy, PartialEq, Eq, Structural)]
pub enum Effect {
    Nothing,
    /// Commit the bottle's Gamescope configuration, as it is with `enabled`
    /// set, and report with `WrapperUpdated`.
    SetGamescope(bool),
    /// Commit a MangoHud configuration with `enabled`, and report with
    /// `WrapperUpdated`.
    SetMangoHud(bool),
}

/// The settings tab.
#[derive(Debug)]
pub struct State;

/// What the tab asks for, message by message.
pub open spec fn effect_of(message: Message, ctx: Context) -> Effect {
    match message {
        Message::ToggleGamescope(enabled) => if ctx.has_bottle && ctx.has_state {
            Effect::SetGamescope(enabled)
        } else {
            Effect::Nothing
        },
        Message::ToggleMangoHud(enabled) => if ctx.has_bottle { Effect::SetMangoHud(enabled) } else { Effect::Nothing },
        Message::WrapperUpdated(_) => Effect::Nothing,
    }
}

impl State {
    pub fn new() -> Self {
        State
    }

    /// Handles a message.
    pub fn update(&mut self, message: Message, ctx: Context) -> (effect: Effect)
        ensures
            effect == effect_of(message, ctx),
    {
        match message {
            Message::ToggleGamescope(enabled) => {
                if ctx.has_bottle && ctx.has_state {
                    Effect::SetGamescope(enabled)
                } else {
                    Effect::Nothing
                }
            },
            Message::ToggleMangoHud(enabled) => {
                if ctx.has_bottle {
                    Effect::SetMangoHud(enabled)
                } else {
                    Effect::Nothing
                }
            },
            Message::WrapperUpdated(_) => Effect::Nothing,
        }
    }
}

} // verus!
