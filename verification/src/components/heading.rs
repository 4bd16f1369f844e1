//! Headings in five levels, each with its type size.

use vstd::prelude::*;

verus! {

/// The level of a heading, from the largest down.
#[derive(Debug, Clone, Copy, PartialEq, Eq, Structural)]
pub enum Level {
    H1,
    H2,
    H3,
    H4,
    H5,
}

impl Level {
    pub open spec fn size_spec(self) -> u16 {
        match self {
            Level::H1 => 72,
            Level::H2 => 64,
            Level::H3 => 54,
            Level::H4 => 44,
            Level::H5 => 40,
        }
    }

    /// The type size of a heading at this level, in logical pixels.
    pub fn size(self) -> (res: u16)
        ensures
            res == self.size_spec(),
    {
        match self {
            Level::H1 => 72,
            Level::H2 => 64,
            Level::H3 => 54,
            Level::H4 => 44,
            Level::H5 => 40,
        }
    }
}

/// A semibold heading.
pub struct Heading<'a> {
    pub content: &'a str,
    pub size: u16,
}

impl<'a> Heading<'a> {
    pub fn new(level: Level, content: &'a str) -> (heading: Self)
        ensures
            heading.content == content,
            heading.size == level.size_spec(),
    {
        Heading { content, size: level.size() }
    }
}

/// Each level is set smaller than the one above it.
pub proof fn law_levels_shrink()
    ensures
        Level::H1.size_spec() > Level::H2.size_spec(),
        Level::H2.size_spec() > Level::H3.size_spec(),
        Level::H3.size_spec() > Level::H4.size_spec(),
        Level::H4.size_spec() > Level::H5.size_spec(),
{
}

} // verus!
