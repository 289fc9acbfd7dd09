//! The search bridge: formatting the store's autocompletion matches.
//!
//! The store owns the search and its ranking; this side only formats each
//! `(crate, item)` match as `crate::item`, and honours cooperative
//! cancellation: a cancellation observed before formatting yields an empty
//! candidate list and has no further effect.

use vstd::prelude::*;
use vstd::string::StringExecFns;

verus! {

/// Formats the store's matches, in order, as `crate::item`; when the
/// cancellation flag was observed set, returns the empty list instead.
pub fn format_search_results(matches: &Vec<(String, String)>, cancelled: bool) -> (r: Vec<String>)
    ensures
        cancelled ==> r@.len() == 0,
        !cancelled ==> r@.len() == matches@.len(),
        !cancelled ==> forall|i: int|
            0 <= i < matches@.len() ==> r@[i]@ == matches@[i].0@ + "::"@ + matches@[i].1@,
{
    let mut out: Vec<String> = Vec::new();
    if cancelled {
        return out;
    }
    let n = matches.len();
    let mut i: usize = 0;
    while i < n
        invariant
            n == matches@.len(),
            0 <= i <= n,
            out@.len() == i,
            forall|j: int| 0 <= j < i ==> out@[j]@ == matches@[j].0@ + "::"@ + matches@[j].1@,
        decreases n - i,
    {
        let mut line = matches[i].0.clone();
        line.append("::");
        line.append(matches[i].1.as_str());
        out.push(line);
        i += 1;
    }
    out
}

} // verus!
