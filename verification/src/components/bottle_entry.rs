//! An entry of the bottle list: name, kind, and either an action or progress.

use vstd::prelude::*;

verus! {

/// What a bottle was created for.
#[derive(Debug, Clone, Copy, PartialEq, Eq, Structural)]
pub enum BottleKind {
    Gaming,
    Software,
    Custom,
}

impl BottleKind {
    pub open spec fn icon_spec(self) -> Seq<char> {
        match self {
            BottleKind::Gaming => "controller"@,
            BottleKind::Software => "hollow-gear"@,
            BottleKind::Custom => "custom"@,
        }
    }

    pub open spec fn label_spec(self) -> Seq<char> {
        match self {
            BottleKind::Gaming => "Gaming"@,
            BottleKind::Software => "Software"@,
            BottleKind::Custom => "Custom"@,
        }
    }

    /// The name of the icon shown for the kind.
    pub fn icon(self) -> (res: &'static str)
        ensures
            res@ == self.icon_spec(),
    {
        match self {
            BottleKind::Gaming => "controller",
            BottleKind::Software => "hollow-gear",
            BottleKind::Custom => "custom",
        }
    }

    /// The kind's label.
    pub fn label(self) -> (res: &'static str)
        ensures
            res@ == self.label_spec(),
    {
        match self {
            BottleKind::Gaming => "Gaming",
            BottleKind::Software => "Software",
            BottleKind::Custom => "Custom",
        }
    }
}

/// What the entry's trailing side shows.
#[derive(Debug, Clone, Copy, PartialEq, Eq)]
pub enum BottleEntryStatus<Message> {
    /// The bottle is ready; choosing the entry sends the message.
    Ready(Message),
    /// The bottle is being made; the percentage done.
    Progress(u8),
}

/// An entry of the bottle list.
pub struct BottleEntry<'a, Message> {
    pub name: &'a str,
    pub kind: BottleKind,
    pub status: BottleEntryStatus<Message>,
}

impl<'a, Message> BottleEntry<'a, Message> {
    pub fn new(name: &'a str, kind: BottleKind, status: BottleEntryStatus<Message>) -> (entry: Self)
        ensures
            entry.name == name,
            entry.kind == kind,
            entry.status == status,
    {
        BottleEntry { name, kind, status }
    }

    /// The message sent when the entry is chosen: only a ready bottle can be.
    pub fn on_press(&self) -> (res: Option<&Message>)
        ensures
            match self.status {
                BottleEntryStatus::Ready(message) => res == Some(&message),
                BottleEntryStatus::Progress(_) => res.is_none(),
            },
    {
        match &self.status {
            BottleEntryStatus::Ready(message) => Some(message),
            BottleEntryStatus::Progress(_) => None,
        }
    }
}

/// The percentage shown for a bottle in progress, capped at a hundred.
pub fn shown_progress(progress: u8) -> (res: u8)
    ensures
        res == if progress <= 100 { progress } else { 100u8 },
{
    if progress <= 100 { progress } else { 100 }
}

} // verus!
