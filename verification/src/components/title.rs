//! A title with an optional subtitle or status line, and its type sizes.

use vstd::prelude::*;

verus! {

/// The line under a title.
#[derive(Debug, Clone, Copy, PartialEq, Eq)]
pub enum Detail<'a> {
    /// A quiet description.
    Subtitle(&'a str),
    /// A prominent status, shown in large type.
    Status(&'a str),
}

/// A title under construction.
pub struct Title<'a> {
    pub title: &'a str,
    pub detail: Option<Detail<'a>>,
}

impl<'a> Title<'a> {
    /// A title with no line under it.
    pub fn new(title: &'a str) -> (res: Self)
        ensures
            res.title == title,
            res.detail.is_none(),
    {
        Title { title, detail: None }
    }

    /// Puts a subtitle under the title, in place of any other line.
    pub fn subtitle(self, subtitle: &'a str) -> (res: Self)
        ensures
            res.title == self.title,
            res.detail == Some(Detail::Subtitle(subtitle)),
    {
        Title { title: self.title, detail: Some(Detail::Subtitle(subtitle)) }
    }

    /// Puts a status line under the title, in place of any other line.
    pub fn status(self, status: &'a str) -> (res: Self)
        ensures
            res.title == self.title,
            res.detail == Some(Detail::Status(status)),
    {
        Title { title: self.title, detail: Some(Detail::Status(status)) }
    }
}

/// Title size, detail size and the spacing between them, in logical pixels:
/// a status line gets large type.
pub open spec fn typography_spec(detail: Option<Detail>) -> (u16, u16, u16) {
    match detail {
        Some(Detail::Status(_)) => (48u16, 40u16, 12u16),
        _ => (32u16, 24u16, 10u16),
    }
}

/// Title size, detail size and spacing for the given detail line.
pub fn typography(detail: Option<&Detail>) -> (res: (u16, u16, u16))
    ensures
        res == typography_spec(match detail {
            Some(d) => Some(*d),
            None => None,
        }),
{
    match detail {
        Some(Detail::Status(_)) => (48, 40, 12),
        _ => (32, 24, 10),
    }
}

} // verus!
