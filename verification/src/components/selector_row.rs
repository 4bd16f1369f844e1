//! The expanding selector row: a header that opens a list of options, driven
//! by pointer presses and the keyboard.
//!
//! Geometry stays with the renderer, which reports what a press landed on; the
//! row's state machine decides what opens, what is highlighted and which
//! option is chosen.

use vstd::prelude::*;

verus! {

/// What a pointer press or release landed on.
#[derive(Debug, Clone, Copy, PartialEq, Eq, Structural)]
pub enum Target {
    /// The header that shows the current value.
    Header,
    /// The option at this index of the open list.
    Choice(usize),
}

/// The keys the selector reacts to.
#[derive(Debug, Clone, Copy, PartialEq, Eq, Structural)]
pub enum Key {
    ArrowDown,
    ArrowUp,
    Home,
    End,
    Enter,
    Space,
    Escape,
    Other,
}

/// An input event, reduced to what the selector distinguishes.
#[derive(Debug, Clone, Copy, PartialEq, Eq, Structural)]
pub enum Event {
    /// The primary button or a finger went down.
    Press,
    /// The primary button or a finger went up.
    Release,
    /// The touch was cancelled.
    FingerLost,
    /// A key went down; `repeat` marks an auto-repeated press.
    Key { key: Key, repeat: bool },
    /// Anything else, such as the cursor moving.
    Other,
}

/// The options a selector row offers.
#[derive(Debug, Clone, Copy, PartialEq, Eq, Structural)]
pub struct Options {
    /// How many options there are.
    pub count: usize,
    /// The index of the current value among them.
    pub selected: Option<usize>,
    /// Whether choosing an option is reported to the application.
    pub selectable: bool,
}

impl Options {
    /// The selected index, where there is one, names an option.
    pub open spec fn well_formed(self) -> bool {
        match self.selected {
            Some(index) => index < self.count,
            None => true,
        }
    }

    pub open spec fn is_enabled_spec(self) -> bool {
        self.selectable && self.count > 0
    }

    /// Whether the row takes input at all: it needs options and a listener.
    pub fn is_enabled(self) -> (res: bool)
        ensures
            res == self.is_enabled_spec(),
    {
        self.selectable && self.count > 0
    }

    /// The index the list starts from: the current value, or the first option.
    pub open spec fn start_spec(self) -> usize {
        match self.selected {
            Some(index) => index,
            None => 0,
        }
    }

    /// The index of the last option.
    pub open spec fn last_spec(self) -> usize {
        (self.count - 1) as usize
    }
}

/// What an event did, for the host to act on.
#[derive(Debug, Clone, Copy, PartialEq, Eq, Structural)]
pub struct Response {
    /// The option chosen by this event, if any.
    pub chosen: Option<usize>,
    /// Whether the event was consumed.
    pub captured: bool,
    /// Whether the list opened or closed, so the layout must be computed again.
    pub relayout: bool,
    /// Whether anything drawn changed.
    pub redraw: bool,
}

/// The interaction state of a selector row.
#[derive(Debug, Clone, Copy, PartialEq, Eq, Structural)]
pub struct State {
    pub open: bool,
    pub highlighted: Option<usize>,
    pub hovered: Option<usize>,
    pub pressed: Option<Target>,
    pub focused: bool,
}

/// Whether an optional index names one of `count` options.
pub open spec fn index_fits(index: Option<usize>, count: usize) -> bool {
    match index {
        Some(i) => i < count,
        None => true,
    }
}

/// Whether a target lies on the header or on one of `count` options.
pub open spec fn target_fits(target: Option<Target>, count: usize) -> bool {
    match target {
        Some(Target::Choice(i)) => i < count,
        _ => true,
    }
}

/// What a press lands on: the header, else an option of the open list.
pub open spec fn hit_target_spec(open: bool, over_header: bool, over_option: Option<usize>) -> Option<Target> {
    if over_header {
        Some(Target::Header)
    } else if open {
        match over_option {
            Some(index) => Some(Target::Choice(index)),
            None => None,
        }
    } else {
        None
    }
}

/// What a press lands on, given whether the cursor is over the header and
/// which option it is over.
pub fn hit_target(open: bool, over_header: bool, over_option: Option<usize>) -> (res: Option<Target>)
    ensures
        res == hit_target_spec(open, over_header, over_option),
{
    if over_header {
        Some(Target::Header)
    } else if open {
        match over_option {
            Some(index) => Some(Target::Choice(index)),
            None => None,
        }
    } else {
        None
    }
}

/// The option a target names, if it names one.
pub open spec fn hovered_by(target: Option<Target>) -> Option<usize> {
    match target {
        Some(Target::Choice(index)) => Some(index),
        _ => None,
    }
}

impl State {
    /// The state of a row that has seen no input.
    pub open spec fn initial() -> State {
        State { open: false, highlighted: None, hovered: None, pressed: None, focused: false }
    }

    /// Every index the state holds names an existing option, and a closed
    /// list has nothing under the cursor.
    pub open spec fn well_formed(self, options: Options) -> bool {
        &&& index_fits(self.highlighted, options.count)
        &&& index_fits(self.hovered, options.count)
        &&& target_fits(self.pressed, options.count)
        &&& !self.open ==> self.hovered.is_none()
    }

    /// A closed row that has seen no input.
    pub fn new() -> (state: Self)
        ensures
            state == State::initial(),
    {
        State { open: false, highlighted: None, hovered: None, pressed: None, focused: false }
    }

    /// Whether the row holds the keyboard focus.
    pub fn is_focused(&self) -> (res: bool)
        ensures
            res == self.focused,
    {
        self.focused
    }

    /// Gives the row the keyboard focus.
    pub fn focus(&mut self)
        ensures
            *final(self) == (State { focused: true, ..*old(self) }),
    {
        self.focused = true;
    }

    /// Takes the keyboard focus away, dropping any press in progress.
    pub fn unfocus(&mut self)
        ensures
            *final(self) == (State { focused: false, pressed: None, ..*old(self) }),
    {
        self.focused = false;
        self.pressed = None;
    }

    /// The state after the options changed: a disabled row closes and forgets
    /// its indices, and no index is kept that no longer names an option.
    pub open spec fn diff_spec(self, options: Options) -> State {
        let count = options.count;
        let base = if !options.is_enabled_spec() {
            State { open: false, highlighted: None, hovered: None, pressed: None, ..self }
        } else if !index_fits(self.highlighted, count) || self.highlighted.is_none() {
            State { highlighted: Some(options.start_spec()), ..self }
        } else {
            self
        };
        let hovered = if index_fits(base.hovered, count) { base.hovered } else { None };
        let pressed = if target_fits(base.pressed, count) { base.pressed } else { None };
        State { hovered, pressed, ..base }
    }

    /// Brings the state in line with the current options.
    pub fn diff(&mut self, options: Options)
        ensures
            *final(self) == old(self).diff_spec(options),
    {
        let count = options.count;
        if !options.is_enabled() {
            self.open = false;
            self.highlighted = None;
            self.hovered = None;
            self.pressed = None;
        } else {
            let stale = match self.highlighted {
                Some(index) => index >= count,
                None => true,
            };
            if stale {
                self.highlighted = match options.selected {
                    Some(index) => Some(index),
                    None => Some(0),
                };
            }
        }
        let hover_stale = match self.hovered {
            Some(index) => index >= count,
            None => false,
        };
        if hover_stale {
            self.hovered = None;
        }
        let press_stale = match self.pressed {
            Some(Target::Choice(index)) => index >= count,
            _ => false,
        };
        if press_stale {
            self.pressed = None;
        }
    }

    /// The highlight after a key press on a focused, enabled row, with the
    /// option the key chose and whether the key was consumed.
    pub open spec fn key_spec(self, options: Options, key: Key) -> (State, Option<usize>, bool) {
        let start = options.start_spec();
        let last = options.last_spec();
        match key {
            Key::ArrowDown => {
                let next = if self.open {
                    match self.highlighted {
                        Some(index) => if index + 1 <= last { (index + 1) as usize } else { last },
                        None => start,
                    }
                } else {
                    start
                };
                (State { highlighted: Some(next), open: true, ..self }, None, true)
            },
            Key::ArrowUp => {
                let next = if self.open {
                    let from = match self.highlighted {
                        Some(index) => index,
                        None => start,
                    };
                    if from == 0 { 0usize } else { (from - 1) as usize }
                } else {
                    match options.selected {
                        Some(index) => index,
                        None => last,
                    }
                };
                (State { highlighted: Some(next), open: true, ..self }, None, true)
            },
            Key::Home => (State { open: true, highlighted: Some(0usize), ..self }, None, true),
            Key::End => (State { open: true, highlighted: Some(last), ..self }, None, true),
            Key::Enter | Key::Space => {
                if self.open {
                    match self.highlighted {
                        Some(index) => (State { open: false, ..self }, Some(index), true),
                        None => (self, None, true),
                    }
                } else {
                    (State { open: true, highlighted: Some(start), ..self }, None, true)
                }
            },
            Key::Escape => {
                if self.open {
                    (State { open: false, ..self }, None, true)
                } else {
                    (self, None, false)
                }
            },
            Key::Other => (self, None, false),
        }
    }

    /// The state after an event on an enabled row, before a closed list
    /// drops its hover, with the chosen option and whether the event was
    /// consumed. `target` is what the pointer is over.
    pub open spec fn event_spec(self, options: Options, event: Event, target: Option<Target>) -> (
        State,
        Option<usize>,
        bool,
    ) {
        let s = State { hovered: hovered_by(target), ..self };
        match event {
            Event::Press => {
                if target.is_some() {
                    (State { pressed: target, focused: true, ..s }, None, true)
                } else {
                    (State { pressed: target, focused: false, open: false, ..s }, None, false)
                }
            },
            Event::Release => {
                let released = State { pressed: None, ..s };
                if self.pressed == target {
                    match target {
                        Some(Target::Header) => (
                            State {
                                open: !s.open,
                                highlighted: Some(options.start_spec()),
                                ..released
                            },
                            None,
                            true,
                        ),
                        Some(Target::Choice(index)) => (
                            State { open: false, highlighted: Some(index), ..released },
                            Some(index),
                            true,
                        ),
                        None => (released, None, false),
                    }
                } else {
                    (released, None, false)
                }
            },
            Event::FingerLost => (State { hovered: None, pressed: None, ..s }, None, false),
            Event::Key { key, repeat } => {
                if !repeat && s.focused {
                    s.key_spec(options, key)
                } else {
                    (s, None, false)
                }
            },
            Event::Other => (s, None, false),
        }
    }

    /// The state after an event: a disabled row ignores it; otherwise a
    /// closed list drops its hover.
    pub open spec fn update_spec(self, options: Options, event: Event, target: Option<Target>) -> State {
        if !options.is_enabled_spec() {
            self
        } else {
            let stepped = self.event_spec(options, event, target).0;
            if stepped.open {
                stepped
            } else {
                State { hovered: None, ..stepped }
            }
        }
    }

    /// What the host is told after an event.
    pub open spec fn response_spec(self, options: Options, event: Event, target: Option<Target>) -> Response {
        if !options.is_enabled_spec() {
            Response { chosen: None, captured: false, relayout: false, redraw: false }
        } else {
            let after = self.update_spec(options, event, target);
            let stepped = self.event_spec(options, event, target);
            Response {
                chosen: stepped.1,
                captured: stepped.2,
                relayout: after.open != self.open,
                redraw: after.open != self.open || after.highlighted != self.highlighted
                    || after.hovered != self.hovered,
            }
        }
    }

    fn on_key(&mut self, options: Options, key: Key) -> (res: (Option<usize>, bool))
        requires
            options.is_enabled_spec(),
        ensures
            (*final(self), res.0, res.1) == old(self).key_spec(options, key),
    {
        let start = match options.selected {
            Some(index) => index,
            None => 0,
        };
        let last = options.count - 1;
        match key {
            Key::ArrowDown => {
                let next = if self.open {
                    match self.highlighted {
                        Some(index) => if index < last { index + 1 } else { last },
                        None => start,
                    }
                } else {
                    start
                };
                self.highlighted = Some(next);
                self.open = true;
                (None, true)
            },
            Key::ArrowUp => {
                let next = if self.open {
                    let from = match self.highlighted {
                        Some(index) => index,
                        None => start,
                    };
                    if from == 0 { 0 } else { from - 1 }
                } else {
                    match options.selected {
                        Some(index) => index,
                        None => last,
                    }
                };
                self.highlighted = Some(next);
                self.open = true;
                (None, true)
            },
            Key::Home => {
                self.open = true;
                self.highlighted = Some(0);
                (None, true)
            },
            Key::End => {
                self.open = true;
                self.highlighted = Some(last);
                (None, true)
            },
            Key::Enter | Key::Space => {
                if self.open {
                    match self.highlighted {
                        Some(index) => {
                            self.open = false;
                            (Some(index), true)
                        },
                        None => (None, true),
                    }
                } else {
                    self.open = true;
                    self.highlighted = Some(start);
                    (None, true)
                }
            },
            Key::Escape => {
                if self.open {
                    self.open = false;
                    (None, true)
                } else {
                    (None, false)
                }
            },
            Key::Other => (None, false),
        }
    }

    /// Applies an event. `target` is what the pointer is over, as
    /// [`hit_target`] reports it.
    pub fn update(&mut self, options: Options, event: Event, target: Option<Target>) -> (res: Response)
        ensures
            *final(self) == old(self).update_spec(options, event, target),
            res == old(self).response_spec(options, event, target),
    {
        if !options.is_enabled() {
            return Response { chosen: None, captured: false, relayout: false, redraw: false };
        }
        let was = *self;
        self.hovered = match target {
            Some(Target::Choice(index)) => Some(index),
            _ => None,
        };
        let (chosen, captured) = match event {
            Event::Press => {
                self.pressed = target;
                self.focused = target.is_some();
                if target.is_some() {
                    (None, true)
                } else {
                    self.open = false;
                    (None, false)
                }
            },
            Event::Release => {
                let pressed = self.pressed;
                self.pressed = None;
                if pressed == target {
                    match target {
                        Some(Target::Header) => {
                            self.open = !self.open;
                            self.highlighted = match options.selected {
                                Some(index) => Some(index),
                                None => Some(0),
                            };
                            (None, true)
                        },
                        Some(Target::Choice(index)) => {
                            self.open = false;
                            self.highlighted = Some(index);
                            (Some(index), true)
                        },
                        None => (None, false),
                    }
                } else {
                    (None, false)
                }
            },
            Event::FingerLost => {
                self.hovered = None;
                self.pressed = None;
                (None, false)
            },
            Event::Key { key, repeat } => {
                if !repeat && self.focused {
                    self.on_key(options, key)
                } else {
                    (None, false)
                }
            },
            Event::Other => (None, false),
        };
        if !self.open {
            self.hovered = None;
        }
        let relayout = self.open != was.open;
        let redraw = relayout || self.highlighted != was.highlighted || self.hovered != was.hovered;
        Response { chosen, captured, relayout, redraw }
    }
}

/// On a focused, enabled row with its list closed, the arrow keys, Enter and
/// Space open the list on the current value, choosing nothing: ArrowDown,
/// Enter and Space highlight the current value or else the first option,
/// ArrowUp the current value or else the last option. Home and End open it on
/// the first and the last option.
pub proof fn law_keys_open_on_the_current_value(state: State, options: Options, key: Key, target: Option<Target>)
    requires
        options.is_enabled_spec(),
        state.focused,
        !state.open,
    ensures
        ({
            let event = Event::Key { key, repeat: false };
            let after = state.update_spec(options, event, target);
            let response = state.response_spec(options, event, target);
            let current_or_first: usize = match options.selected { Some(index) => index, None => 0 };
            let current_or_last: usize = match options.selected { Some(index) => index, None => (options.count - 1) as usize };
            &&& (key == Key::ArrowDown || key == Key::Enter || key == Key::Space)
                ==> after.open && after.highlighted == Some(current_or_first) && response.chosen.is_none() && response.captured
            &&& key == Key::ArrowUp
                ==> after.open && after.highlighted == Some(current_or_last) && response.chosen.is_none() && response.captured
            &&& key == Key::Home ==> after.open && after.highlighted == Some(0usize)
            &&& key == Key::End ==> after.open && after.highlighted == Some((options.count - 1) as usize)
        }),
{
}

/// On a focused, enabled row with its list open, ArrowDown moves the
/// highlight one option down, stopping at the last; ArrowUp one option up,
/// stopping at the first; Enter and Space choose the highlighted option and
/// close the list.
pub proof fn law_keys_move_through_an_open_list(state: State, options: Options, key: Key, target: Option<Target>, index: usize)
    requires
        options.is_enabled_spec(),
        state.focused,
        state.open,
        state.highlighted == Some(index),
        index < options.count,
    ensures
        ({
            let event = Event::Key { key, repeat: false };
            let after = state.update_spec(options, event, target);
            let response = state.response_spec(options, event, target);
            &&& key == Key::ArrowDown ==> after.open
                && after.highlighted == Some(if index + 1 < options.count { (index + 1) as usize } else { index })
            &&& key == Key::ArrowUp ==> after.open
                && after.highlighted == Some(if index > 0 { (index - 1) as usize } else { 0usize })
            &&& (key == Key::Enter || key == Key::Space) ==> !after.open && response.chosen == Some(index)
        }),
{
}

/// A row that takes no input ignores every event: its state stays and the
/// host is told nothing.
pub proof fn law_disabled_row_ignores_events(state: State, options: Options, event: Event, target: Option<Target>)
    requires
        !options.is_enabled_spec(),
    ensures
        state.update_spec(options, event, target) == state,
        state.response_spec(options, event, target) == (Response {
            chosen: None,
            captured: false,
            relayout: false,
            redraw: false,
        }),
{
}

/// Bringing the state in line with well-formed options leaves it well formed,
/// whatever it held before.
pub proof fn law_diff_makes_state_well_formed(state: State, options: Options)
    requires
        options.well_formed(),
        !state.open ==> state.hovered.is_none(),
    ensures
        state.diff_spec(options).well_formed(options),
        options.is_enabled_spec() ==> state.diff_spec(options).highlighted.is_some(),
{
}

/// Every event keeps a well-formed state well formed, and an option the row
/// reports as chosen is one of its options.
pub proof fn law_chosen_option_exists(state: State, options: Options, event: Event, target: Option<Target>)
    requires
        options.well_formed(),
        state.well_formed(options),
        target_fits(target, options.count),
    ensures
        state.update_spec(options, event, target).well_formed(options),
        index_fits(state.response_spec(options, event, target).chosen, options.count),
{
}

/// Choosing an option closes the list.
pub proof fn law_choosing_closes(state: State, options: Options, event: Event, target: Option<Target>)
    requires
        state.response_spec(options, event, target).chosen.is_some(),
    ensures
        !state.update_spec(options, event, target).open,
{
}

/// Escape closes an open list of a focused row and is consumed.
pub proof fn law_escape_closes(state: State, options: Options, target: Option<Target>)
    requires
        options.is_enabled_spec(),
        state.open,
        state.focused,
    ensures
        !state.update_spec(options, Event::Key { key: Key::Escape, repeat: false }, target).open,
        state.response_spec(options, Event::Key { key: Key::Escape, repeat: false }, target).captured,
{
}

/// Pressing the header and releasing it there toggles the list.
pub proof fn law_header_click_toggles(state: State, options: Options)
    requires
        options.is_enabled_spec(),
    ensures
        ({
            let pressed = state.update_spec(options, Event::Press, Some(Target::Header));
            let released = pressed.update_spec(options, Event::Release, Some(Target::Header));
            released.open == !state.open
        }),
{
}

} // verus!
