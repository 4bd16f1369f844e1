//! The bottle status bar: architecture, runner, whether a program runs, and
//! the log that unfolds under it.

use vstd::prelude::*;

verus! {

/// A status bar under construction.
pub struct StatusBar<'a, Message> {
    pub architecture: &'a str,
    pub runner: &'a str,
    pub is_running: bool,
    pub log: &'a str,
    pub expanded: bool,
    pub toggle: Message,
}

impl<'a, Message> StatusBar<'a, Message> {
    /// A collapsed bar with nothing running and an empty log.
    pub fn new(architecture: &'a str, runner: &'a str, toggle: Message) -> (bar: Self)
        ensures
            bar.architecture == architecture,
            bar.runner == runner,
            !bar.is_running,
            bar.log@ == ""@,
            !bar.expanded,
            bar.toggle == toggle,
    {
        StatusBar { architecture, runner, is_running: false, log: "", expanded: false, toggle }
    }

    pub fn running(self, is_running: bool) -> (bar: Self)
        ensures
            bar == (StatusBar { is_running, ..self }),
    {
        StatusBar { is_running, ..self }
    }

    pub fn log(self, log: &'a str) -> (bar: Self)
        ensures
            bar == (StatusBar { log, ..self }),
    {
        StatusBar { log, ..self }
    }

    pub fn expanded(self, expanded: bool) -> (bar: Self)
        ensures
            bar == (StatusBar { expanded, ..self }),
    {
        StatusBar { expanded, ..self }
    }
}

} // verus!
