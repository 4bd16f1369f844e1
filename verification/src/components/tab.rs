//! A single tab button of a tab bar.

use vstd::prelude::*;

verus! {

/// A tab under construction.
pub struct Tab<'a, Message> {
    pub label: &'a str,
    pub selected: bool,
    pub on_press: Message,
}

impl<'a, Message> Tab<'a, Message> {
    /// An unselected tab that sends `on_press` when chosen.
    pub fn new(label: &'a str, on_press: Message) -> (tab: Self)
        ensures
            tab.label == label,
            !tab.selected,
            tab.on_press == on_press,
    {
        Tab { label, selected: false, on_press }
    }

    pub fn selected(self, selected: bool) -> (tab: Self)
        ensures
            tab == (Tab { selected, ..self }),
    {
        Tab { selected, ..self }
    }
}

} // verus!
