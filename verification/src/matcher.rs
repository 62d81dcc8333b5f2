//! Watch-list matcher: decides whether any watched identity token occurs in
//! a piece of free text, under literal case-sensitive substring semantics.

use vstd::prelude::*;

verus! {

/// `needle` occurs in `hay` as a contiguous run starting at position `i`.
pub open spec fn occurs_at(needle: Seq<char>, hay: Seq<char>, i: int) -> bool {
    0 <= i && i + needle.len() <= hay.len() && hay.subrange(i, i + needle.len()) == needle
}

/// `needle` is a literal substring of `hay`.
pub open spec fn is_substring(needle: Seq<char>, hay: Seq<char>) -> bool {
    exists|i: int| occurs_at(needle, hay, i)
}

/// Some token of `watch_list` is a literal substring of `text`.
pub open spec fn spec_matches(text: Seq<char>, watch_list: Seq<Seq<char>>) -> bool {
    exists|k: int| 0 <= k < watch_list.len() && is_substring(watch_list[k], text)
}

/// Whether `token` occurs in `text` starting at position `i`.
fn token_occurs_at(text: &str, token: &str, i: usize) -> (r: bool)
    requires
        i + token@.len() <= text@.len(),
        text@.len() <= usize::MAX,
    ensures
        r == occurs_at(token@, text@, i as int),
{
    let token_len = token.unicode_len();
    let mut j: usize = 0;
    while j < token_len
        invariant
            token_len == token@.len(),
            j <= token_len,
            i + token_len <= text@.len(),
            text@.len() <= usize::MAX,
            forall|jj: int| 0 <= jj < j ==> text@[i + jj] == token@[jj],
        decreases token_len - j,
    {
        if text.get_char(i + j) != token.get_char(j) {
            proof {
                assert(text@.subrange(i as int, i + token@.len())[j as int] == text@[i + j]);
            }
            return false;
        }
        j += 1;
    }
    proof {
        assert(text@.subrange(i as int, i + token@.len()) =~= token@);
    }
    true
}

/// Whether `token` is a literal substring of `text`.
///
/// An empty token occurs in every text (at position zero); a token longer
/// than the text occurs nowhere.
pub fn contains_token(text: &str, token: &str) -> (r: bool)
    ensures
        r == is_substring(token@, text@),
{
    let text_len = text.unicode_len();
    let token_len = token.unicode_len();
    if token_len > text_len {
        proof {
            assert(forall|i: int| !occurs_at(token@, text@, i));
        }
        return false;
    }
    if token_len == 0 {
        proof {
            assert(text@.subrange(0, 0) =~= token@);
            assert(occurs_at(token@, text@, 0));
        }
        return true;
    }
    let last_start = text_len - token_len;
    let mut i: usize = 0;
    while i <= last_start
        invariant
            text_len == text@.len(),
            token_len == token@.len(),
            0 < token_len <= text_len,
            last_start == text_len - token_len,
            i <= last_start + 1,
            forall|ii: int| 0 <= ii < i ==> !occurs_at(token@, text@, ii),
        decreases last_start + 1 - i,
    {
        if token_occurs_at(text, token, i) {
            return true;
        }
        i += 1;
    }
    proof {
        assert(forall|ii: int| ii > last_start ==> !occurs_at(token@, text@, ii));
    }
    false
}

/// Whether some token of `watch_list` is a literal substring of `text`.
///
/// Case-sensitive, no word-boundary requirement: a watched handle that is a
/// prefix of a longer handle also matches the longer one. An empty watch
/// list matches nothing.
pub fn matches(text: &str, watch_list: &Vec<String>) -> (r: bool)
    ensures
        r == spec_matches(text@, watch_list.deep_view()),
{
    let n = watch_list.len();
    let mut k: usize = 0;
    while k < n
        invariant
            n == watch_list@.len(),
            k <= n,
            forall|kk: int| 0 <= kk < k ==> !is_substring(watch_list.deep_view()[kk], text@),
        decreases n - k,
    {
        if contains_token(text, watch_list[k].as_str()) {
            proof {
                assert(watch_list.deep_view()[k as int] == watch_list@[k as int]@);
            }
            return true;
        }
        k += 1;
    }
    false
}

/// An empty watch list never matches, whatever the text.
pub proof fn lemma_empty_watch_list_never_matches(text: Seq<char>)
    ensures
        !spec_matches(text, Seq::<Seq<char>>::empty()),
{
}

/// Empty text never matches a watch list whose tokens are all nonempty.
pub proof fn lemma_empty_text_never_matches(watch_list: Seq<Seq<char>>)
    requires
        forall|k: int| 0 <= k < watch_list.len() ==> watch_list[k].len() > 0,
    ensures
        !spec_matches(Seq::<char>::empty(), watch_list),
{
}

} // verus!
