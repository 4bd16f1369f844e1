//! The tab models of the streaming client: the library, the new-bottle form
//! and its log, the bottle settings, snapshots and the onboarding choice.

pub mod bottles;
pub mod library;
pub mod onboarding;
pub mod settings;
pub mod snapshots;
