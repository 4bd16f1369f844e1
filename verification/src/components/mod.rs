//! Plain models behind the reusable widgets: what each widget is built from
//! and the decisions it makes, apart from drawing.

pub mod action_row;
pub mod bottle_entry;
pub mod button;
pub mod cycle_row;
pub mod heading;
pub mod info_card;
pub mod info_panel;
pub mod info_row;
pub mod picker_row;
pub mod search;
pub mod selector_row;
pub mod split_view;
pub mod status_bar;
pub mod tab;
pub mod tabs;
pub mod text;
pub mod text_field;
pub mod title;
