use vstd::prelude::*;

use crate::text::{chars_of, string_of, trim, trim_chars};

verus! {

/// The query to record in the search history: the trimmed query, or `None`
/// when nothing is left after trimming.
pub fn history_query(query: &str) -> (r: Option<String>)
    ensures
        trim(query@).len() == 0 <==> r is None,
        r matches Some(q) ==> q@ == trim(query@),
{
    let t = trim_chars(&chars_of(query));
    if t.len() == 0 {
        None
    } else {
        Some(string_of(&t))
    }
}

} // verus!
