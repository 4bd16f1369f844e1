//! The type scale: named text roles and the size each one sets.

use vstd::prelude::*;

verus! {

/// Text set in one of the named roles of the type scale.
pub trait TextExt: Sized {
    /// Largest heading.
    fn h1(self) -> Self;

    /// Second heading level.
    fn h2(self) -> Self;

    /// Third heading level.
    fn h3(self) -> Self;

    /// Fourth heading level.
    fn h4(self) -> Self;

    /// Smallest heading.
    fn h5(self) -> Self;

    /// The title of a card or row.
    fn title(self) -> Self;

    /// A line under a title.
    fn subtitle(self) -> Self;

    /// Supporting text beside a title.
    fn supporting(self) -> Self;

    /// Running text.
    fn body(self) -> Self;

    /// A control's label.
    fn label(self) -> Self;

    /// A secondary value.
    fn detail(self) -> Self;

    /// The smallest text.
    fn caption(self) -> Self;

    /// Quiet, secondary colour.
    fn muted(self) -> Self;
}

/// A run of text and how it is set.
#[derive(Debug, Clone, Copy, PartialEq, Eq)]
pub struct Text<'a> {
    pub content: &'a str,
    /// The size in logical pixels, where a role set one.
    pub size: Option<u16>,
    /// Whether it is drawn in the quiet colour.
    pub muted: bool,
}

impl<'a> Text<'a> {
    /// Text in the default size and colour.
    pub fn new(content: &'a str) -> (text: Self)
        ensures
            text.content == content,
            text.size.is_none(),
            !text.muted,
    {
        Text { content, size: None, muted: false }
    }

    /// Sets the size.
    pub fn size(self, size: u16) -> (text: Self)
        ensures
            text == (Text { size: Some(size), ..self }),
    {
        Text { size: Some(size), ..self }
    }
}

impl<'a> TextExt for Text<'a> {
    fn h1(self) -> (text: Self)
        ensures
            text == (Text { size: Some(72u16), ..self }),
    {
        self.size(72)
    }

    fn h2(self) -> (text: Self)
        ensures
            text == (Text { size: Some(64u16), ..self }),
    {
        self.size(64)
    }

    fn h3(self) -> (text: Self)
        ensures
            text == (Text { size: Some(54u16), ..self }),
    {
        self.size(54)
    }

    fn h4(self) -> (text: Self)
        ensures
            text == (Text { size: Some(44u16), ..self }),
    {
        self.size(44)
    }

    fn h5(self) -> (text: Self)
        ensures
            text == (Text { size: Some(40u16), ..self }),
    {
        self.size(40)
    }

    fn title(self) -> (text: Self)
        ensures
            text == (Text { size: Some(28u16), ..self }),
    {
        self.size(28)
    }

    fn subtitle(self) -> (text: Self)
        ensures
            text == (Text { size: Some(22u16), ..self }),
    {
        self.size(22)
    }

    fn supporting(self) -> (text: Self)
        ensures
            text == (Text { size: Some(24u16), ..self }),
    {
        self.size(24)
    }

    fn body(self) -> (text: Self)
        ensures
            text == (Text { size: Some(20u16), ..self }),
    {
        self.size(20)
    }

    fn label(self) -> (text: Self)
        ensures
            text == (Text { size: Some(18u16), ..self }),
    {
        self.size(18)
    }

    fn detail(self) -> (text: Self)
        ensures
            text == (Text { size: Some(16u16), ..self }),
    {
        self.size(16)
    }

    fn caption(self) -> (text: Self)
        ensures
            text == (Text { size: Some(14u16), ..self }),
    {
        self.size(14)
    }

    fn muted(self) -> (text: Self)
        ensures
            text == (Text { muted: true, ..self }),
    {
        Text { muted: true, ..self }
    }
}

} // verus!
