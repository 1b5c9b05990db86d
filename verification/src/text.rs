//! Comparing owned text with fixed text.

use vstd::prelude::*;

verus! {

broadcast use vstd::string::group_string_axioms;

/// Whether `s` reads exactly `t`.
pub fn text_is(s: &String, t: &str) -> (b: bool)
    ensures
        b == (s@ == t@),
{
    let owned = t.to_string();
    *s == owned
}

/// Whether `s` is present and reads exactly `t`.
pub fn some_text_is(s: &Option<String>, t: &str) -> (b: bool)
    ensures
        b == (s matches Some(v) && v@ == t@),
{
    match s {
        Some(v) => text_is(v, t),
        None => false,
    }
}

} // verus!
