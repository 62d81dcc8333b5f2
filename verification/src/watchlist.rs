//! Watch-list construction: watched identities are configured as bare login
//! names and rendered as "@handle"-style tokens before matching.

use vstd::prelude::*;

verus! {

/// Render each configured login as a watch-list token by prefixing it with
/// an at sign. Every token is therefore nonempty, so a watch list built here
/// never matches empty text.
pub fn prefix_handles(logins: &Vec<String>) -> (r: Vec<String>)
    ensures
        r.deep_view().len() == logins.deep_view().len(),
        forall|i: int|
            0 <= i < logins.deep_view().len() ==> r.deep_view()[i] == "@"@
                + logins.deep_view()[i],
        forall|i: int| 0 <= i < logins.deep_view().len() ==> r.deep_view()[i].len() > 0,
{
    proof {
        reveal_strlit("@");
    }
    let mut out: Vec<String> = Vec::new();
    let mut i: usize = 0;
    while i < logins.len()
        invariant
            i <= logins@.len(),
            out.deep_view().len() == i,
            "@"@.len() == 1,
            forall|j: int|
                0 <= j < i ==> out.deep_view()[j] == "@"@ + logins.deep_view()[j],
        decreases logins@.len() - i,
    {
        let mut token = String::from_str("@");
        token.append(logins[i].as_str());
        let ghost prev = out@;
        let ghost prev_deep = out.deep_view();
        out.push(token);
        proof {
            assert forall|j: int|
                0 <= j < i + 1 implies out.deep_view()[j] == "@"@ + logins.deep_view()[j] by {
                assert(out.deep_view()[j] == out@[j]@);
                if j < i {
                    assert(out@[j] == prev[j]);
                    assert(prev_deep[j] == prev[j]@);
                }
            }
        }
        i += 1;
    }
    out
}

} // verus!
