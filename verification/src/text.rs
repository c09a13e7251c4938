use vstd::prelude::*;

verus! {

/// Whether `c` has the Unicode `White_Space` property.
pub uninterp spec fn is_whitespace(c: char) -> bool;

/// `char::is_whitespace`: the answer is the `White_Space` property of `c`,
/// which this crate leaves to the standard library's tables.
#[verifier::external_body]
pub(crate) fn char_is_whitespace(c: char) -> (b: bool)
    ensures
        b == is_whitespace(c),
{
    c.is_whitespace()
}

/// What `str::to_lowercase` returns for the text `s`.
pub uninterp spec fn lowercase(s: Seq<char>) -> Seq<char>;

/// `str::to_lowercase`: the Unicode lower-case mapping of the whole text,
/// a function of the text alone.
#[verifier::external_body]
pub(crate) fn to_lowercase(s: &str) -> (lower: String)
    ensures
        lower@ == lowercase(s@),
{
    s.to_lowercase()
}

/// `s` without its leading whitespace.
pub open spec fn trim_start(s: Seq<char>) -> Seq<char>
    decreases s.len(),
{
    if s.len() > 0 && is_whitespace(s.first()) {
        trim_start(s.drop_first())
    } else {
        s
    }
}

/// `s` without its trailing whitespace.
pub open spec fn trim_end(s: Seq<char>) -> Seq<char>
    decreases s.len(),
{
    if s.len() > 0 && is_whitespace(s.last()) {
        trim_end(s.drop_last())
    } else {
        s
    }
}

/// `s` without leading and trailing whitespace.
pub open spec fn trimmed(s: Seq<char>) -> Seq<char> {
    trim_end(trim_start(s))
}

/// Every character of `s` is whitespace.
pub open spec fn all_whitespace(s: Seq<char>) -> bool {
    forall|i: int| 0 <= i < s.len() ==> is_whitespace(#[trigger] s[i])
}

/// The characters of `s`, in order.
pub fn chars_of(s: &str) -> (out: Vec<char>)
    ensures
        out@ == s@,
{
    let mut out: Vec<char> = Vec::new();
    for c in it: s.chars()
        invariant
            it.seq() == s@,
            out@ == s@.take(it.index() as int),
    {
        out.push(c);
    }
    out
}

/// Whether the character `c` occurs in `s`.
pub fn contains_char(s: &str, c: char) -> (found: bool)
    ensures
        found == s@.contains(c),
{
    let mut found = false;
    for x in it: s.chars()
        invariant
            it.seq() == s@,
            found == s@.take(it.index() as int).contains(c),
    {
        proof {
            let k = it.index() as int;
            assert(s@.take(k + 1) == s@.take(k).push(s@[k]));
            if s@.take(k).contains(c) {
                let j = choose|j: int| 0 <= j < k && s@.take(k)[j] == c;
                assert(s@.take(k + 1)[j] == c);
            }
            if x == c {
                assert(s@.take(k + 1)[k] == c);
            }
        }
        if x == c {
            found = true;
        }
    }
    proof {
        assert(s@.take(s@.len() as int) == s@);
    }
    found
}

/// Dropping a whitespace prefix of length `n` is what `trim_start` does, as
/// long as the character after it (if any) is not whitespace.
pub proof fn lemma_trim_start_at(s: Seq<char>, n: int)
    requires
        0 <= n <= s.len(),
        all_whitespace(s.take(n)),
        n < s.len() ==> !is_whitespace(s[n]),
    ensures
        trim_start(s) == s.skip(n),
    decreases n,
{
    if n == 0 {
        assert(s.skip(0) == s);
    } else {
        assert(s.take(n)[0] == s[0]);
        let t = s.drop_first();
        assert(t.take(n - 1) =~= s.take(n).drop_first());
        assert forall|i: int| 0 <= i < t.take(n - 1).len() implies is_whitespace(
            #[trigger] t.take(n - 1)[i],
        ) by {
            assert(t.take(n - 1)[i] == s.take(n)[i + 1]);
        }
        lemma_trim_start_at(t, n - 1);
        assert(t.skip(n - 1) =~= s.skip(n));
    }
}

/// Dropping a whitespace suffix that starts at `n` is what `trim_end` does,
/// as long as the character before it (if any) is not whitespace.
pub proof fn lemma_trim_end_at(s: Seq<char>, n: int)
    requires
        0 <= n <= s.len(),
        all_whitespace(s.skip(n)),
        n > 0 ==> !is_whitespace(s[n - 1]),
    ensures
        trim_end(s) == s.take(n),
    decreases s.len() - n,
{
    if n == s.len() {
        assert(s.take(n) == s);
    } else {
        assert(s.skip(n)[s.len() - n - 1] == s.last());
        let t = s.drop_last();
        assert forall|i: int| 0 <= i < t.skip(n).len() implies is_whitespace(
            #[trigger] t.skip(n)[i],
        ) by {
            assert(t.skip(n)[i] == s.skip(n)[i]);
        }
        lemma_trim_end_at(t, n);
        assert(t.take(n) =~= s.take(n));
    }
}

/// `str::trim` by hand: the text between the first and the last character
/// that is not whitespace.
pub fn trim(s: &str) -> (out: &str)
    ensures
        out@ == trimmed(s@),
{
    let chars = chars_of(s);
    let n = chars.len();
    let mut start: usize = 0;
    while start < n && char_is_whitespace(chars[start])
        invariant
            start <= n,
            n == chars@.len(),
            all_whitespace(chars@.take(start as int)),
        decreases n - start,
    {
        proof {
            assert(chars@.take(start + 1) == chars@.take(start as int).push(chars@[start as int]));
        }
        start += 1;
    }
    let mut end: usize = n;
    while end > start && char_is_whitespace(chars[end - 1])
        invariant
            start <= end <= n,
            n == chars@.len(),
            all_whitespace(chars@.skip(end as int)),
        decreases end,
    {
        proof {
            let e = end as int;
            assert forall|i: int| 0 <= i < chars@.skip(e - 1).len() implies is_whitespace(
                #[trigger] chars@.skip(e - 1)[i],
            ) by {
                if i > 0 {
                    assert(chars@.skip(e - 1)[i] == chars@.skip(e)[i - 1]);
                }
            }
        }
        end -= 1;
    }
    proof {
        let full = chars@;
        lemma_trim_start_at(full, start as int);
        let rest = full.skip(start as int);
        let m = end - start;
        assert(rest.skip(m) =~= full.skip(end as int));
        if m > 0 {
            assert(rest[m - 1] == full[end - 1]);
        }
        lemma_trim_end_at(rest, m);
        assert(rest.take(m) =~= full.subrange(start as int, end as int));
    }
    s.substring_char(start, end)
}

/// Whether `c` is one of the ten ASCII decimal digits.
pub open spec fn is_digit(c: char) -> bool {
    48 <= c as u32 <= 57
}

/// The value of the decimal digit `c`.
pub open spec fn digit_value(c: char) -> int {
    c as u32 as int - 48
}

/// Every character of `s` is a decimal digit.
pub open spec fn all_digits(s: Seq<char>) -> bool {
    forall|i: int| 0 <= i < s.len() ==> is_digit(#[trigger] s[i])
}

/// The number that the digits `s` write in base ten, most significant first.
pub open spec fn decimal(s: Seq<char>) -> int
    decreases s.len(),
{
    if s.len() == 0 {
        0
    } else {
        10 * decimal(s.drop_last()) + digit_value(s.last())
    }
}

/// `s` without one leading plus sign.
pub open spec fn without_plus(s: Seq<char>) -> Seq<char> {
    if s.len() > 0 && s[0] == '+' {
        s.drop_first()
    } else {
        s
    }
}

/// The `u32` that `s` writes: an optional `+`, then one or more decimal
/// digits whose value fits. Anything else writes no number.
pub open spec fn parse_u32_spec(s: Seq<char>) -> Option<u32> {
    let digits = without_plus(s);
    if digits.len() > 0 && all_digits(digits) && decimal(digits) <= u32::MAX {
        Some(decimal(digits) as u32)
    } else {
        None
    }
}

/// A number never gets smaller when more digits follow it.
pub proof fn lemma_decimal_prefix(s: Seq<char>, k: int)
    requires
        all_digits(s),
        0 <= k <= s.len(),
    ensures
        0 <= decimal(s.take(k)) <= decimal(s),
    decreases s.len() - k,
{
    if k == s.len() {
        assert(s.take(k) == s);
        lemma_decimal_nonnegative(s);
    } else {
        let t = s.drop_last();
        assert(all_digits(t)) by {
            assert forall|i: int| 0 <= i < t.len() implies is_digit(#[trigger] t[i]) by {
                assert(t[i] == s[i]);
            }
        }
        lemma_decimal_prefix(t, k);
        assert(t.take(k) == s.take(k));
        assert(is_digit(s[s.len() - 1]));
    }
}

/// Digits write a number that is not negative.
pub proof fn lemma_decimal_nonnegative(s: Seq<char>)
    requires
        all_digits(s),
    ensures
        0 <= decimal(s),
    decreases s.len(),
{
    if s.len() > 0 {
        let t = s.drop_last();
        assert forall|i: int| 0 <= i < t.len() implies is_digit(#[trigger] t[i]) by {
            assert(t[i] == s[i]);
        }
        lemma_decimal_nonnegative(t);
        assert(is_digit(s[s.len() - 1]));
    }
}

/// Reads a `u32` the way `str::parse::<u32>` does.
pub fn parse_u32(s: &str) -> (out: Option<u32>)
    ensures
        out == parse_u32_spec(s@),
{
    let chars = chars_of(s);
    let n = chars.len();
    let first: usize = if n > 0 && chars[0] == '+' {
        1
    } else {
        0
    };
    let ghost digits = without_plus(s@);
    assert(digits == chars@.skip(first as int));
    if first == n {
        return None;
    }
    let mut acc: u64 = 0;
    let mut i: usize = first;
    while i < n
        invariant
            first <= i <= n,
            n == chars@.len(),
            digits == without_plus(s@),
            digits == chars@.skip(first as int),
            all_digits(digits.take(i - first)),
            acc == decimal(digits.take(i - first)),
            acc <= u32::MAX,
        decreases n - i,
    {
        let c = chars[i];
        let code: u32 = c as u32;
        let ghost k = i - first;
        assert(digits[k] == c);
        assert(digits.take(k + 1).drop_last() == digits.take(k));
        if code < 48 || code > 57 {
            assert(!is_digit(digits[k]));
            return None;
        }
        let next: u64 = acc * 10 + (code - 48) as u64;
        assert(next == decimal(digits.take(k + 1)));
        assert(all_digits(digits.take(k + 1))) by {
            assert forall|j: int| 0 <= j < k + 1 implies is_digit(
                #[trigger] digits.take(k + 1)[j],
            ) by {
                if j < k {
                    assert(digits.take(k + 1)[j] == digits.take(k)[j]);
                }
            }
        }
        if next > 0xffff_ffff {
            proof {
                if all_digits(digits) {
                    lemma_decimal_prefix(digits, k + 1);
                }
            }
            return None;
        }
        acc = next;
        i += 1;
    }
    assert(digits.take(n - first) == digits);
    Some(acc as u32)
}

/// The index of the first `sep` in `s`, or the length of `s` if it has none.
pub open spec fn first_sep(s: Seq<char>, sep: char) -> nat
    decreases s.len(),
{
    if s.len() == 0 || s[0] == sep {
        0
    } else {
        1 + first_sep(s.drop_first(), sep)
    }
}

/// The pieces of `s` between occurrences of `sep`. A text without `sep` is
/// one piece; two separators in a row enclose an empty piece.
pub open spec fn split(s: Seq<char>, sep: char) -> Seq<Seq<char>>
    decreases s.len(),
{
    let k = first_sep(s, sep) as int;
    if k >= s.len() {
        seq![s]
    } else {
        seq![s.take(k)] + split(s.skip(k + 1), sep)
    }
}

/// The texts that a list of strings holds.
pub open spec fn texts(v: Seq<String>) -> Seq<Seq<char>> {
    Seq::new(v.len(), |i: int| v[i]@)
}

/// `first_sep` is `k` when no `sep` stands before `k` and one stands at `k`
/// or the text ends there.
pub proof fn lemma_first_sep(s: Seq<char>, sep: char, k: int)
    requires
        0 <= k <= s.len(),
        forall|i: int| 0 <= i < k ==> s[i] != sep,
        k < s.len() ==> s[k] == sep,
    ensures
        first_sep(s, sep) == k,
    decreases k,
{
    if k > 0 {
        let t = s.drop_first();
        assert forall|i: int| 0 <= i < k - 1 implies t[i] != sep by {
            assert(t[i] == s[i + 1]);
        }
        lemma_first_sep(t, sep, k - 1);
    }
}

/// Cuts `s` at every `sep`.
pub fn split_text(s: &str, sep: char) -> (parts: Vec<String>)
    ensures
        texts(parts@) == split(s@, sep),
        parts@.len() >= 1,
{
    let chars = chars_of(s);
    let n = chars.len();
    let mut parts: Vec<String> = Vec::new();
    let mut start: usize = 0;
    let mut i: usize = 0;
    assert(s@.skip(0) == s@);
    assert(texts(parts@) + split(s@, sep) == split(s@, sep));
    while i < n
        invariant
            start <= i <= n,
            n == s@.len(),
            chars@ == s@,
            forall|j: int| start <= j < i ==> s@[j] != sep,
            split(s@, sep) == texts(parts@) + split(s@.skip(start as int), sep),
        decreases n - i,
    {
        if chars[i] == sep {
            let piece = s.substring_char(start, i);
            let ghost before = parts@;
            parts.push(String::from_str(piece));
            proof {
                let t = s@.skip(start as int);
                let k = i - start;
                assert forall|j: int| 0 <= j < k implies t[j] != sep by {
                    assert(t[j] == s@[start + j]);
                }
                assert(t[k] == s@[i as int]);
                lemma_first_sep(t, sep, k);
                assert(t.take(k) == s@.subrange(start as int, i as int));
                assert(t.skip(k + 1) == s@.skip(i + 1));
                assert(texts(parts@) == texts(before) + seq![piece@]);
                assert(split(t, sep) == seq![piece@] + split(s@.skip(i + 1), sep));
                assert(texts(before) + (seq![piece@] + split(s@.skip(i + 1), sep)) == (texts(
                    before,
                ) + seq![piece@]) + split(s@.skip(i + 1), sep));
            }
            start = i + 1;
        }
        i += 1;
    }
    let piece = s.substring_char(start, n);
    let ghost before = parts@;
    parts.push(String::from_str(piece));
    proof {
        let t = s@.skip(start as int);
        assert forall|j: int| 0 <= j < t.len() implies t[j] != sep by {
            assert(t[j] == s@[start + j]);
        }
        lemma_first_sep(t, sep, t.len() as int);
        assert(t == s@.subrange(start as int, n as int));
        assert(split(t, sep) == seq![t]);
        assert(texts(parts@) == texts(before) + seq![piece@]);
    }
    parts
}

/// Whether `a` and `b` hold the same text.
pub fn same_str(a: &str, b: &str) -> (same: bool)
    ensures
        same == (a@ == b@),
{
    String::from_str(a) == String::from_str(b)
}

/// No character of `s` is `sep`.
pub open spec fn free_of(s: Seq<char>, sep: char) -> bool {
    forall|i: int| 0 <= i < s.len() ==> #[trigger] s[i] != sep
}

/// A text without `sep` is a single piece.
pub proof fn lemma_split_single(s: Seq<char>, sep: char)
    requires
        free_of(s, sep),
    ensures
        split(s, sep) == seq![s],
{
    lemma_first_sep(s, sep, s.len() as int);
}

/// A text that starts with a piece without `sep`, followed by `sep`, splits
/// into that piece and the pieces of what follows.
pub proof fn lemma_split_joined(head: Seq<char>, tail: Seq<char>, sep: char)
    requires
        free_of(head, sep),
    ensures
        split(head.push(sep) + tail, sep) == seq![head] + split(tail, sep),
{
    let s = head.push(sep) + tail;
    let k = head.len() as int;
    assert forall|i: int| 0 <= i < k implies s[i] != sep by {
        assert(s[i] == head[i]);
    }
    assert(s[k] == sep);
    lemma_first_sep(s, sep, k);
    assert(s.take(k) == head);
    assert(s.skip(k + 1) == tail);
}

} // verus!
