//! Decision logic of the Bottles desktop client: experience switching,
//! the Classic workspace and its workflows, onboarding, layout rules and the
//! plain data models behind the widgets.

pub mod app;
pub mod bytes;
pub mod catalog;
pub mod classic;
pub mod clock;
pub mod components;
pub mod features;
pub mod format;
pub mod icons;
pub mod onboarding;
pub mod operation;
pub mod shell;
