//! A tab bar over a set of values: which tab is selected and which can be
//! chosen.

use vstd::prelude::*;
use vstd::std_specs::cmp::PartialEqSpec;

verus! {

/// One tab of a tab bar, standing for a value.
pub struct Tab<'a, T> {
    pub value: T,
    pub label: &'a str,
    pub enabled: bool,
}

impl<'a, T> Tab<'a, T> {
    /// An enabled tab for this value.
    pub fn new(value: T, label: &'a str) -> (tab: Self)
        ensures
            tab.value == value,
            tab.label == label,
            tab.enabled,
    {
        Tab { value, label, enabled: true }
    }

    pub fn enabled(self, enabled: bool) -> (tab: Self)
        ensures
            tab == (Tab { enabled, ..self }),
    {
        Tab { enabled, ..self }
    }
}

/// The position of the first tab whose value equals the selected one; the
/// indicator is drawn under it.
pub fn selected_index<'a, T: PartialEq>(tabs: &Vec<Tab<'a, T>>, selected: Option<&T>) -> (res: Option<usize>)
    ensures
        selected.is_none() ==> res.is_none(),
        T::obeys_eq_spec() ==> match (selected, res) {
            (Some(value), Some(k)) => k < tabs@.len() && tabs@[k as int].value.eq_spec(value)
                && forall|j: int| 0 <= j < k ==> !(#[trigger] tabs@[j]).value.eq_spec(value),
            (Some(value), None) => forall|j: int| 0 <= j < tabs@.len() ==> !(#[trigger] tabs@[j]).value.eq_spec(value),
            (None, _) => true,
        },
{
    let value = match selected {
        Some(value) => value,
        None => {
            return None;
        },
    };
    let mut k: usize = 0;
    while k < tabs.len()
        invariant
            0 <= k <= tabs@.len(),
            selected == Some(value),
            T::obeys_eq_spec() ==> forall|j: int| 0 <= j < k ==> !(#[trigger] tabs@[j]).value.eq_spec(value),
        decreases tabs@.len() - k,
    {
        if tabs[k].value == *value {
            return Some(k);
        }
        k += 1;
    }
    None
}

} // verus!
