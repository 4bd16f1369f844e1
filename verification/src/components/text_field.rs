//! Form fields; the disabled field shows a value that cannot be edited.

use vstd::prelude::*;

verus! {

/// A read-only field with a label, a placeholder and a value.
pub struct Disabled<'a> {
    pub label: &'a str,
    pub placeholder: &'a str,
    pub value: &'a str,
}

impl<'a> Disabled<'a> {
    pub fn new(label: &'a str, placeholder: &'a str, value: &'a str) -> (field: Self)
        ensures
            field.label == label,
            field.placeholder == placeholder,
            field.value == value,
    {
        Disabled { label, placeholder, value }
    }
}

} // verus!
