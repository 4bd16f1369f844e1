//! The application's button: its shape, colour tone, icon and action.

use vstd::prelude::*;
use crate::icons::Icon;

verus! {

/// The outline of a button.
#[derive(Debug, Clone, Copy, PartialEq, Eq, Structural)]
pub enum Shape {
    Rectangular,
    Pill,
    Circular,
}

/// The colour family of a button.
#[derive(Debug, Clone, Copy, PartialEq, Eq, Structural)]
pub enum Tone {
    Secondary,
    Primary,
    Surface,
}

/// Edge length of a circular button unless another is chosen, in logical pixels.
pub const DEFAULT_DIAMETER: u32 = 52;

/// Whether a button of this shape shows its text label: a circular button
/// shows only its icon.
pub open spec fn shows_label_spec(shape: Shape) -> bool {
    shape != Shape::Circular
}

/// Whether a button of this shape shows its text label.
pub fn shows_label(shape: Shape) -> (res: bool)
    ensures
        res == shows_label_spec(shape),
{
    match shape {
        Shape::Circular => false,
        _ => true,
    }
}

/// The vertical and horizontal padding around a button's content; a circular
/// button has none and takes its size from its diameter.
pub open spec fn padding_spec(shape: Shape) -> (u16, u16) {
    match shape {
        Shape::Rectangular => (12u16, 18u16),
        Shape::Pill => (10u16, 16u16),
        Shape::Circular => (0u16, 0u16),
    }
}

/// The vertical and horizontal padding around a button's content.
pub fn padding(shape: Shape) -> (res: (u16, u16))
    ensures
        res == padding_spec(shape),
{
    match shape {
        Shape::Rectangular => (12, 18),
        Shape::Pill => (10, 16),
        Shape::Circular => (0, 0),
    }
}

/// A button under construction.
pub struct Button<'a, Message> {
    pub label: &'a str,
    pub icon: Option<Icon>,
    pub shape: Shape,
    pub diameter: u32,
    pub tone: Tone,
    pub on_press: Option<Message>,
}

impl<'a, Message> Button<'a, Message> {
    /// A rectangular secondary button with this label and no action.
    pub fn new(label: &'a str) -> (button: Self)
        ensures
            button.label == label,
            button.icon.is_none(),
            button.shape == Shape::Rectangular,
            button.diameter == DEFAULT_DIAMETER,
            button.tone == Tone::Secondary,
            button.on_press.is_none(),
    {
        Button {
            label,
            icon: None,
            shape: Shape::Rectangular,
            diameter: DEFAULT_DIAMETER,
            tone: Tone::Secondary,
            on_press: None,
        }
    }

    /// Shows this icon.
    pub fn icon(self, icon: Icon) -> (button: Self)
        ensures
            button == (Button { icon: Some(icon), ..self }),
    {
        Button { icon: Some(icon), ..self }
    }

    /// Gives the button square-ish corners.
    pub fn rectangular(self) -> (button: Self)
        ensures
            button == (Button { shape: Shape::Rectangular, ..self }),
    {
        Button { shape: Shape::Rectangular, ..self }
    }

    /// Gives the button fully rounded ends.
    pub fn pill(self) -> (button: Self)
        ensures
            button == (Button { shape: Shape::Pill, ..self }),
    {
        Button { shape: Shape::Pill, ..self }
    }

    /// Makes the button a circle that shows only its icon.
    pub fn circular(self) -> (button: Self)
        ensures
            button == (Button { shape: Shape::Circular, ..self }),
    {
        Button { shape: Shape::Circular, ..self }
    }

    /// Sets the edge length of a circular button.
    pub fn diameter(self, diameter: u32) -> (button: Self)
        ensures
            button == (Button { diameter, ..self }),
    {
        Button { diameter, ..self }
    }

    /// Uses the primary colours.
    pub fn primary(self) -> (button: Self)
        ensures
            button == (Button { tone: Tone::Primary, ..self }),
    {
        Button { tone: Tone::Primary, ..self }
    }

    /// Uses the surface colours.
    pub fn surface(self) -> (button: Self)
        ensures
            button == (Button { tone: Tone::Surface, ..self }),
    {
        Button { tone: Tone::Surface, ..self }
    }

    /// Sends this message when pressed.
    pub fn on_press(self, message: Message) -> (button: Self)
        ensures
            button == (Button { on_press: Some(message), ..self }),
    {
        Button { on_press: Some(message), ..self }
    }
}

} // verus!
