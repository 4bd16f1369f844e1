//! A card that carries a hint, a notice or an error, with the icon of its kind.

use vstd::prelude::*;
use crate::icons::Icon;

verus! {

/// What a card tells the user.
#[derive(Debug, Clone, Copy, PartialEq, Eq, Structural)]
pub enum Kind {
    Hint,
    Info,
    Error,
    Warning,
    Success,
}

/// An informational card.
pub struct InfoCard<'a> {
    pub kind: Kind,
    pub title: &'a str,
    pub body: &'a str,
}

impl<'a> InfoCard<'a> {
    pub fn new(kind: Kind, title: &'a str, body: &'a str) -> (card: Self)
        ensures
            card.kind == kind,
            card.title == title,
            card.body == body,
    {
        InfoCard { kind, title, body }
    }
}

pub open spec fn icon_spec(kind: Kind) -> Icon {
    match kind {
        Kind::Hint => Icon::Wand,
        Kind::Info => Icon::Info,
        Kind::Error => Icon::Error,
        Kind::Warning => Icon::Warning,
        Kind::Success => Icon::DoubleCheckmark,
    }
}

/// The bundled icon shown beside the card's title.
pub fn icon(kind: Kind) -> (res: Icon)
    ensures
        res == icon_spec(kind),
{
    match kind {
        Kind::Hint => Icon::Wand,
        Kind::Info => Icon::Info,
        Kind::Error => Icon::Error,
        Kind::Warning => Icon::Warning,
        Kind::Success => Icon::DoubleCheckmark,
    }
}

} // verus!
