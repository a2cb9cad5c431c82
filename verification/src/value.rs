//! Values that a collection of a profile can hold.

use vstd::prelude::*;
use crate::account::AccountId;

verus! {

/// A value with a mathematical view that can be compared and copied by that
/// view. Two values are the same entry of a collection exactly when their
/// views are equal.
pub trait Value: View + Sized {
    /// Whether `self` and `other` have the same view.
    fn same(&self, other: &Self) -> (same: bool)
        ensures
            same == (self@ == other@),
    ;

    /// A copy with the same view.
    fn duplicate(&self) -> (copy: Self)
        ensures
            copy@ == self@,
    ;
}

impl Value for String {
    fn same(&self, other: &String) -> (same: bool) {
        *self == *other
    }

    fn duplicate(&self) -> (copy: String) {
        self.clone()
    }
}

impl Value for AccountId {
    fn same(&self, other: &AccountId) -> (same: bool) {
        *self == *other
    }

    fn duplicate(&self) -> (copy: AccountId) {
        self.clone()
    }
}

/// The view of an optional text.
pub open spec fn text_view(text: Option<String>) -> Option<Seq<char>> {
    match text {
        Some(t) => Some(t@),
        None => None,
    }
}

/// Whether two optional texts have the same view.
pub fn same_text(a: &Option<String>, b: &Option<String>) -> (same: bool)
    ensures
        same == (text_view(*a) == text_view(*b)),
{
    match (a, b) {
        (Some(x), Some(y)) => *x == *y,
        (None, None) => true,
        _ => false,
    }
}

/// A copy of an optional text with the same view.
pub fn duplicate_text(text: &Option<String>) -> (copy: Option<String>)
    ensures
        text_view(copy) == text_view(*text),
{
    match text {
        Some(t) => Some(t.clone()),
        None => None,
    }
}

} // verus!
