//! A list row that shows a title, a description and an optional icon.

use vstd::prelude::*;
use crate::icons::Icon;

verus! {

/// An informational row under construction.
pub struct InfoRow<'a> {
    pub title: &'a str,
    pub description: &'a str,
    pub icon: Option<Icon>,
}

impl<'a> InfoRow<'a> {
    /// A row with this title, an empty description and no icon.
    pub fn new(title: &'a str) -> (row: Self)
        ensures
            row.title == title,
            row.description@ == ""@,
            row.icon.is_none(),
    {
        InfoRow { title, description: "", icon: None }
    }

    /// Sets the description.
    pub fn description(self, description: &'a str) -> (row: Self)
        ensures
            row.title == self.title,
            row.description == description,
            row.icon == self.icon,
    {
        InfoRow { title: self.title, description, icon: self.icon }
    }

    /// Shows this icon before the labels.
    pub fn icon(self, icon: Icon) -> (row: Self)
        ensures
            row.title == self.title,
            row.description == self.description,
            row.icon == Some(icon),
    {
        InfoRow { title: self.title, description: self.description, icon: Some(icon) }
    }
}

} // verus!
