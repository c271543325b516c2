//! Category values as text: folding to lower case, and membership in a fixed list.

use vstd::prelude::*;
use crate::matrix::label_set;

verus! {

/// The lower-case form of a text, as `str::to_lowercase` of the standard library gives it.
pub uninterp spec fn lowercase(text: Seq<char>) -> Seq<char>;

/// Calls `str::to_lowercase` of the standard library. Trusted: the result is
/// what `lowercase` names, a function of the characters of `text` alone.
#[verifier::external_body]
pub(crate) fn to_lowercase(text: &str) -> (lower: String)
    ensures
        lower@ == lowercase(text@),
{
    text.to_lowercase()
}

/// Whether `value` is one of `list`.
pub fn is_listed(value: &str, list: &Vec<&'static str>) -> (listed: bool)
    ensures
        listed == label_set(list@).contains(value@),
{
    let wanted = value.to_string();
    let mut i: usize = 0;
    while i < list.len()
        invariant
            i <= list@.len(),
            wanted@ == value@,
            forall|k: int| 0 <= k < i ==> #[trigger] list@[k]@ != value@,
        decreases list@.len() - i,
    {
        let candidate = list[i].to_string();
        if candidate == wanted {
            return true;
        }
        i = i + 1;
    }
    false
}

} // verus!
