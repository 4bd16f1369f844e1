//! Which pane of an adaptive split owns the window controls, which panes are
//! drawn and which take input during a transition.

use vstd::prelude::*;

verus! {

/// What a pane knows of its place in the window.
#[derive(Debug, Clone, Copy, PartialEq, Eq, Structural)]
pub struct PaneContext {
    pub standalone: bool,
    pub owns_window_control: bool,
}

impl PaneContext {
    /// The context of the window's root pane.
    pub fn root() -> (context: Self)
        ensures
            context.standalone && context.owns_window_control,
    {
        PaneContext { standalone: true, owns_window_control: true }
    }

    /// Whether the pane fills the window on its own.
    pub fn is_standalone(self) -> (res: bool)
        ensures
            res == self.standalone,
    {
        self.standalone
    }

    /// Whether the pane's header carries the window control.
    pub fn shows_window_control(self) -> (res: bool)
        ensures
            res == self.owns_window_control,
    {
        self.owns_window_control
    }
}

/// The window edge a side panel enters from.
#[derive(Debug, Clone, Copy, PartialEq, Eq, Structural)]
pub enum Side {
    Start,
    End,
}

impl Side {
    pub open spec fn owns_spec(self, window_control_at_start: bool) -> bool {
        (self == Side::Start) == window_control_at_start
    }

    /// Whether a panel on this side covers the window-control edge.
    pub fn owns(self, window_control_at_start: bool) -> (res: bool)
        ensures
            res == self.owns_spec(window_control_at_start),
    {
        match self {
            Side::Start => window_control_at_start,
            Side::End => !window_control_at_start,
        }
    }
}

/// The two kinds of adaptive split.
#[derive(Debug, Clone, Copy, PartialEq, Eq, Structural)]
pub enum Kind {
    /// A master list with a detail pane, nested in a parent pane.
    Navigation(PaneContext),
    /// A base page with a panel sliding in over it.
    SidePanel(Side),
}

/// Where a split's transition stands: not started, moving, or finished.
#[derive(Debug, Clone, Copy, PartialEq, Eq, Structural)]
pub enum Transition {
    /// Progress is zero: the second pane is fully out.
    Start,
    /// Progress is strictly between zero and one.
    Moving,
    /// Progress is one: the second pane is fully in.
    End,
}

impl Transition {
    pub open spec fn started(self) -> bool {
        self != Transition::Start
    }

    pub open spec fn finished(self) -> bool {
        self == Transition::End
    }
}

/// How a split's transition follows a new render.
#[derive(Debug, Clone, Copy, PartialEq, Eq, Structural)]
pub enum SplitSync {
    /// Start over, already at the target, without animating: a narrow side
    /// panel overlays the base and has nothing to slide.
    Jump,
    /// Animate from where the transition stands towards the new target.
    Animate,
    /// The transition already heads for the target.
    Keep,
}

/// What a split does with its transition, heading for `target`, when it is
/// rendered again with `show_second` at this width.
pub open spec fn split_sync_spec(target: bool, show_second: bool, wide: bool, kind: Kind) -> SplitSync {
    if !wide && kind is SidePanel {
        SplitSync::Jump
    } else if target != show_second {
        SplitSync::Animate
    } else {
        SplitSync::Keep
    }
}

/// Decides whether a split jumps, animates or keeps its transition.
pub fn split_sync(target: bool, show_second: bool, wide: bool, kind: Kind) -> (res: SplitSync)
    ensures
        res == split_sync_spec(target, show_second, wide, kind),
{
    if !wide && matches!(kind, Kind::SidePanel(_)) {
        SplitSync::Jump
    } else if target != show_second {
        SplitSync::Animate
    } else {
        SplitSync::Keep
    }
}

/// Which pane of `[first, second]` owns the window control.
pub open spec fn control_owners(kind: Kind, wide: bool, show_second: bool, at_start: bool) -> (bool, bool) {
    match kind {
        Kind::Navigation(parent) => {
            if !show_second {
                (parent.owns_window_control, false)
            } else if !wide {
                (false, parent.owns_window_control)
            } else if at_start {
                (parent.owns_window_control, false)
            } else {
                (false, parent.owns_window_control)
            }
        },
        Kind::SidePanel(side) => {
            if !show_second {
                (true, false)
            } else if !wide {
                (false, true)
            } else {
                (false, side.owns_spec(at_start))
            }
        },
    }
}

impl Kind {
    pub open spec fn base_is_blocked_spec(self, show_second: bool, transition: Transition) -> bool {
        (self is SidePanel) && (show_second || transition.started())
    }

    /// Whether the base page of a side panel is blocked: while the panel is
    /// shown or still moving.
    pub fn base_is_blocked(self, show_second: bool, transition: Transition) -> (res: bool)
        ensures
            res == self.base_is_blocked_spec(show_second, transition),
    {
        match self {
            Kind::SidePanel(_) => show_second || transition != Transition::Start,
            Kind::Navigation(_) => false,
        }
    }

    /// The contexts of the two panes: the first pane is standalone unless both
    /// are shown side by side, the second whenever the window is narrow, and
    /// exactly the pane at the visible window-control edge owns the control.
    pub fn contexts(self, wide: bool, show_second: bool, window_control_at_start: bool) -> (res: [PaneContext; 2])
        ensures
            res@[0].standalone == !(wide && show_second),
            res@[1].standalone == !wide,
            (res@[0].owns_window_control, res@[1].owns_window_control)
                == control_owners(self, wide, show_second, window_control_at_start),
    {
        let first_standalone = !(wide && show_second);
        let second_standalone = !wide;
        let (first_owns, second_owns) = match self {
            Kind::Navigation(parent) => {
                if !show_second {
                    (parent.owns_window_control, false)
                } else if !wide {
                    (false, parent.owns_window_control)
                } else if window_control_at_start {
                    (parent.owns_window_control, false)
                } else {
                    (false, parent.owns_window_control)
                }
            },
            Kind::SidePanel(side) => {
                if !show_second {
                    (true, false)
                } else if !wide {
                    (false, true)
                } else {
                    (false, side.owns(window_control_at_start))
                }
            },
        };
        [
            PaneContext { standalone: first_standalone, owns_window_control: first_owns },
            PaneContext { standalone: second_standalone, owns_window_control: second_owns },
        ]
    }
}

pub open spec fn pane_is_active_spec(index: usize, wide: bool, transition: Transition) -> bool {
    if index == 0 {
        wide || !transition.finished()
    } else if index == 1 {
        transition.started()
    } else {
        false
    }
}

/// Whether pane `index` is drawn: the first while the window is wide or the
/// second is not fully in, the second once it started to move in.
pub fn pane_is_active(index: usize, wide: bool, transition: Transition) -> (res: bool)
    ensures
        res == pane_is_active_spec(index, wide, transition),
{
    match index {
        0 => wide || transition != Transition::End,
        1 => transition != Transition::Start,
        _ => false,
    }
}

/// Whether pane `index` takes input: it is drawn, and it is not a blocked base.
pub fn pane_is_interactive(index: usize, wide: bool, transition: Transition, base_blocked: bool) -> (res: bool)
    ensures
        res == (pane_is_active_spec(index, wide, transition) && (index != 0 || !base_blocked)),
{
    pane_is_active(index, wide, transition) && (index != 0 || !base_blocked)
}

/// At most one pane owns the window control, and a root split always hands
/// it to one of its panes.
pub proof fn law_window_control_has_one_owner(kind: Kind, wide: bool, show_second: bool, at_start: bool)
    ensures
        !(control_owners(kind, wide, show_second, at_start).0 && control_owners(kind, wide, show_second, at_start).1),
        kind == Kind::Navigation(PaneContext { standalone: true, owns_window_control: true }) ==>
            control_owners(kind, wide, show_second, at_start).0 || control_owners(kind, wide, show_second, at_start).1,
        !show_second ==> !control_owners(kind, wide, show_second, at_start).1,
{
}

/// The pane that is shown on its own never loses input to a side panel's
/// blocking, and a blocked base takes no input.
pub proof fn law_blocked_base_takes_no_input(kind: Kind, show_second: bool, wide: bool, transition: Transition)
    ensures
        kind.base_is_blocked_spec(show_second, transition) ==>
            !(pane_is_active_spec(0, wide, transition) && (0usize != 0 || !kind.base_is_blocked_spec(show_second, transition))),
        kind is Navigation ==> !kind.base_is_blocked_spec(show_second, transition),
        !show_second && transition == Transition::Start ==> !kind.base_is_blocked_spec(show_second, transition),
{
}

} // verus!
