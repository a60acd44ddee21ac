//! Settings that come from the environment.

use vstd::prelude::*;
use crate::text;
use crate::text::is_blank;

verus! {

/// The value that a variable of the environment counts as: a blank one counts
/// as not set, and any other is taken as it is, white space included.
pub open spec fn setting(value: Option<Seq<char>>) -> Option<Seq<char>> {
    match value {
        Some(v) => if text::blank(v) {
            None
        } else {
            Some(v)
        },
        None => None,
    }
}

/// The value that a variable of the environment counts as, given what the
/// environment holds for it.
pub fn env_var(value: Option<String>) -> (r: Option<String>)
    ensures
        text::opt(r) == setting(text::opt(value)),
{
    match value {
        Some(v) => if is_blank(v.as_str()) {
            None
        } else {
            Some(v)
        },
        None => None,
    }
}

} // verus!
