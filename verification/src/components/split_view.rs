//! The master-detail split: which mode each pane is laid out in and which
//! pane takes input while the detail slides in or out.

use vstd::prelude::*;
use crate::classic::layout::Transition;

verus! {

/// How a pane is laid out.
#[derive(Debug, Clone, Copy, PartialEq, Eq, Structural)]
pub enum PaneMode {
    /// The pane fills the content area on its own.
    Single,
    /// The pane shares the content area with the other.
    Split,
}

pub open spec fn pane_modes_spec(wide: bool, show_detail: bool) -> (PaneMode, PaneMode) {
    (
        if wide && show_detail { PaneMode::Split } else { PaneMode::Single },
        if wide { PaneMode::Split } else { PaneMode::Single },
    )
}

/// The modes of the master and the detail pane: in a wide window the detail
/// is always laid out as a split pane, and the master only while the detail
/// is shown.
pub fn pane_modes(wide: bool, show_detail: bool) -> (res: (PaneMode, PaneMode))
    ensures
        res == pane_modes_spec(wide, show_detail),
{
    let master = if wide && show_detail { PaneMode::Split } else { PaneMode::Single };
    let detail = if wide { PaneMode::Split } else { PaneMode::Single };
    (master, detail)
}

pub open spec fn pane_is_active_spec(index: usize, wide: bool, transition: Transition) -> bool {
    if index == 0 {
        wide || transition != Transition::End
    } else if index == 1 {
        transition != Transition::Start
    } else {
        false
    }
}

/// Whether the pane at `index` (master first) is drawn and takes input: the
/// master while it is visible, the detail once it has started to slide in.
pub fn pane_is_active(index: usize, wide: bool, transition: Transition) -> (res: bool)
    ensures
        res == pane_is_active_spec(index, wide, transition),
{
    match index {
        0 => wide || transition != Transition::End,
        1 => transition != Transition::Start,
        _ => false,
    }
}

/// At every moment some pane is active, and in a wide window the master
/// always is.
pub proof fn law_some_pane_is_active(wide: bool, transition: Transition)
    ensures
        pane_is_active_spec(0, wide, transition) || pane_is_active_spec(1, wide, transition),
        wide ==> pane_is_active_spec(0, wide, transition),
{
}

} // verus!
