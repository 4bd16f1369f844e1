//! First-run onboarding of the streaming client: the mode picker and the
//! tutorial carousel that leads to the component downloads.

use vstd::prelude::*;
use crate::bytes::size_text;

verus! {

/// Number of tutorial pages.
pub const TUTORIAL_LEN: usize = 3;

/// The two ways of using Bottles offered on the welcome page.
#[derive(Debug, Clone, Copy, PartialEq, Eq, Structural)]
pub enum Mode {
    Next,
    Classic,
}

impl Mode {
    pub open spec fn label_spec(self) -> Seq<char> {
        match self {
            Mode::Next => "Next Mode"@,
            Mode::Classic => "Classic Mode"@,
        }
    }

    pub open spec fn caption_spec(self) -> Seq<char> {
        match self {
            Mode::Next => "The easiest way to use Bottles."@,
            Mode::Classic => "The experience for advanced users."@,
        }
    }

    pub open spec fn detail_spec(self) -> (Seq<char>, Seq<char>) {
        match self {
            Mode::Next => (
                "The software and games you install will be managed by Bottles using a single environment."@,
                "This is the most convenient way if you are a beginner."@,
            ),
            Mode::Classic => (
                "The software and games you install will be managed by Bottles in multiple environments."@,
                "This gives advanced users the ability to fine-tune their experience."@,
            ),
        }
    }

    /// The mode's name.
    pub fn label(self) -> (res: &'static str)
        ensures
            res@ == self.label_spec(),
    {
        match self {
            Mode::Next => "Next Mode",
            Mode::Classic => "Classic Mode",
        }
    }

    /// One line on whom the mode is for.
    pub fn caption(self) -> (res: &'static str)
        ensures
            res@ == self.caption_spec(),
    {
        match self {
            Mode::Next => "The easiest way to use Bottles.",
            Mode::Classic => "The experience for advanced users.",
        }
    }

    /// The two paragraphs shown for the selected mode.
    pub fn detail(self) -> (res: (&'static str, &'static str))
        ensures
            (res.0@, res.1@) == self.detail_spec(),
    {
        match self {
            Mode::Next => (
                "The software and games you install will be managed by Bottles using a single environment.",
                "This is the most convenient way if you are a beginner.",
            ),
            Mode::Classic => (
                "The software and games you install will be managed by Bottles in multiple environments.",
                "This gives advanced users the ability to fine-tune their experience.",
            ),
        }
    }
}

/// A size in bytes as the download list shows it.
pub fn format_bytes(bytes: u64) -> (res: String)
    ensures
        res@ == size_text(bytes as nat),
{
    crate::bytes::format_bytes(bytes)
}

/// The page of the onboarding.
#[derive(Debug, Clone, Copy, PartialEq, Eq, Structural)]
pub enum Step {
    Welcome,
    Tutorial(usize),
    Downloads,
}

/// A user action on the onboarding pages.
#[derive(Debug, Clone, Copy, PartialEq, Eq, Structural)]
pub enum Message {
    SelectMode(Mode),
    ApplyExperience,
    NextTutorialStep,
    CancelDownloads,
    Finished,
}

/// The onboarding's page and chosen mode.
#[derive(Debug, Clone, Copy, PartialEq, Eq, Structural)]
pub struct State {
    pub step: Step,
    pub mode: Mode,
}

impl State {
    /// The welcome page, with the Next mode chosen.
    pub fn new() -> (state: Self)
        ensures
            state == (State { step: Step::Welcome, mode: Mode::Next }),
    {
        State { step: Step::Welcome, mode: Mode::Next }
    }

    /// The state after a message; the tutorial's pages are walked in order and
    /// the last one leads to the downloads.
    pub open spec fn update_spec(self, message: Message) -> State {
        match message {
            Message::SelectMode(mode) => State { mode, ..self },
            Message::ApplyExperience => State { step: Step::Tutorial(0), ..self },
            Message::NextTutorialStep => match self.step {
                Step::Tutorial(index) => if index + 1 < TUTORIAL_LEN {
                    State { step: Step::Tutorial((index + 1) as usize), ..self }
                } else {
                    State { step: Step::Downloads, ..self }
                },
                _ => self,
            },
            Message::CancelDownloads => State { step: Step::Welcome, ..self },
            Message::Finished => self,
        }
    }

    /// Applies a message; returns whether the downloads must start now.
    pub fn update(&mut self, message: Message) -> (start_downloads: bool)
        ensures
            *final(self) == old(self).update_spec(message),
            start_downloads == (old(self).step != Step::Downloads && final(self).step == Step::Downloads),
    {
        match message {
            Message::SelectMode(mode) => {
                self.mode = mode;
                false
            },
            Message::ApplyExperience => {
                self.step = Step::Tutorial(0);
                false
            },
            Message::NextTutorialStep => {
                if let Step::Tutorial(index) = self.step {
                    if index < TUTORIAL_LEN - 1 {
                        self.step = Step::Tutorial(index + 1);
                        false
                    } else {
                        self.step = Step::Downloads;
                        true
                    }
                } else {
                    false
                }
            },
            Message::CancelDownloads => {
                self.step = Step::Welcome;
                false
            },
            Message::Finished => false,
        }
    }
}

/// Walking the tutorial from its first page reaches the downloads after
/// exactly as many steps as there are pages.
pub proof fn law_tutorial_reaches_downloads(state: State)
    requires
        state.step == Step::Tutorial(0),
    ensures
        ({
            let one = state.update_spec(Message::NextTutorialStep);
            let two = one.update_spec(Message::NextTutorialStep);
            let three = two.update_spec(Message::NextTutorialStep);
            &&& one.step != Step::Downloads
            &&& two.step != Step::Downloads
            &&& three.step == Step::Downloads
        }),
{
}

} // verus!
