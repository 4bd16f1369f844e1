//! A full-width panel with a notice, marked by a glyph of its kind.

use vstd::prelude::*;

verus! {

/// What a panel tells the user.
#[derive(Debug, Clone, Copy, PartialEq, Eq, Structural)]
pub enum Kind {
    Hint,
    Info,
    Error,
    Warning,
    Success,
}

/// An informational panel.
pub struct InfoPanel<'a> {
    pub kind: Kind,
    pub title: &'a str,
    pub body: &'a str,
}

impl<'a> InfoPanel<'a> {
    pub fn new(kind: Kind, title: &'a str, body: &'a str) -> (panel: Self)
        ensures
            panel.kind == kind,
            panel.title == title,
            panel.body == body,
    {
        InfoPanel { kind, title, body }
    }
}

pub open spec fn icon_spec(kind: Kind) -> Seq<char> {
    match kind {
        Kind::Hint => "\u{2726}"@,
        Kind::Info => "\u{24d8}"@,
        Kind::Error => "\u{2716}"@,
        Kind::Warning => "\u{25b2}"@,
        Kind::Success => "\u{2713}"@,
    }
}

/// The glyph shown before the panel's title.
pub fn icon(kind: Kind) -> (res: &'static str)
    ensures
        res@ == icon_spec(kind),
{
    match kind {
        Kind::Hint => "\u{2726}",
        Kind::Info => "\u{24d8}",
        Kind::Error => "\u{2716}",
        Kind::Warning => "\u{25b2}",
        Kind::Success => "\u{2713}",
    }
}

} // verus!
