use vstd::prelude::*;
use crate::text::{
    all_whitespace, contains_char, is_whitespace, trim, trim_end, trim_start, trimmed,
};

verus! {

/// `trim_start` leaves nothing exactly when everything is whitespace, and
/// what it leaves starts with a character that is not whitespace.
pub proof fn lemma_trim_start_shape(s: Seq<char>)
    ensures
        trim_start(s).len() == 0 <==> all_whitespace(s),
        trim_start(s).len() > 0 ==> !is_whitespace(trim_start(s).first()),
    decreases s.len(),
{
    if s.len() > 0 && is_whitespace(s.first()) {
        let t = s.drop_first();
        lemma_trim_start_shape(t);
        if all_whitespace(t) {
            assert forall|i: int| 0 <= i < s.len() implies is_whitespace(#[trigger] s[i]) by {
                if i > 0 {
                    assert(s[i] == t[i - 1]);
                }
            }
        }
        if all_whitespace(s) {
            assert forall|i: int| 0 <= i < t.len() implies is_whitespace(#[trigger] t[i]) by {
                assert(t[i] == s[i + 1]);
            }
        }
    } else if s.len() > 0 {
        assert(!is_whitespace(s[0]));
    }
}

/// `trim_end` keeps a text that starts with a character that is not
/// whitespace from becoming empty.
pub proof fn lemma_trim_end_keeps_first(s: Seq<char>)
    requires
        s.len() > 0,
        !is_whitespace(s.first()),
    ensures
        trim_end(s).len() > 0,
    decreases s.len(),
{
    if is_whitespace(s.last()) {
        let t = s.drop_last();
        assert(t.len() > 0);
        assert(t.first() == s.first());
        lemma_trim_end_keeps_first(t);
    }
}

/// Trimming leaves nothing exactly when every character is whitespace.
pub proof fn lemma_blank_iff_all_whitespace(s: Seq<char>)
    ensures
        trimmed(s).len() == 0 <==> all_whitespace(s),
{
    lemma_trim_start_shape(s);
    if trim_start(s).len() > 0 {
        lemma_trim_end_keeps_first(trim_start(s));
    }
}

/// Whether something is left of `s` once the whitespace around it is gone.
pub fn is_non_empty_after_trim(s: &str) -> (ok: bool)
    ensures
        ok == (trimmed(s@).len() > 0),
        ok == !all_whitespace(s@),
{
    proof {
        lemma_blank_iff_all_whitespace(s@);
    }
    !trim(s).is_empty()
}

/// Whether `s` may be an email address: it holds an `@`. Nothing more is
/// asked of it.
pub fn looks_like_email(s: &str) -> (ok: bool)
    ensures
        ok == s@.contains('@'),
{
    contains_char(s, '@')
}

} // verus!
