//! Character-sequence utilities shared by the status probe, the URL
//! extractor and the input parsers: substring search, whitespace
//! classification and trimming, and decimal parsing.

use vstd::prelude::*;

verus! {

/// The pattern `pat` occurs in `s` starting at position `i`.
pub open spec fn occurs_at(s: Seq<char>, pat: Seq<char>, i: int) -> bool {
    0 <= i && i + pat.len() <= s.len() && s.subrange(i, i + pat.len()) == pat
}

/// The pattern `pat` occurs somewhere in `s`.
pub open spec fn contains_seq(s: Seq<char>, pat: Seq<char>) -> bool {
    exists|i: int| occurs_at(s, pat, i)
}

/// Whether `pat` occurs in `s` starting exactly at `i`.
fn occurs_at_exec(s: &str, pat: &str, i: usize) -> (b: bool)
    requires
        s@.len() <= usize::MAX,
        i + pat@.len() <= s@.len(),
    ensures
        b == occurs_at(s@, pat@, i as int),
{
    let pat_len = pat.unicode_len();
    let mut k: usize = 0;
    while k < pat_len
        invariant
            s@.len() <= usize::MAX,
            i + pat@.len() <= s@.len(),
            pat_len == pat@.len(),
            0 <= k <= pat_len,
            forall|j: int| 0 <= j < k ==> s@[i + j] == pat@[j],
        decreases pat_len - k,
    {
        if s.get_char(i + k) != pat.get_char(k) {
            assert(s@.subrange(i as int, i + pat@.len())[k as int] != pat@[k as int]);
            return false;
        }
        k = k + 1;
    }
    assert(s@.subrange(i as int, i + pat@.len()) =~= pat@);
    true
}

/// Position of the first occurrence of `pat` in `s`, if any.
pub fn find_sub(s: &str, pat: &str) -> (r: Option<usize>)
    ensures
        match r {
            Some(i) => occurs_at(s@, pat@, i as int) && forall|j: int|
                0 <= j < i ==> !occurs_at(s@, pat@, j),
            None => !contains_seq(s@, pat@),
        },
{
    let s_len = s.unicode_len();
    let pat_len = pat.unicode_len();
    if pat_len > s_len {
        assert(forall|i: int| !occurs_at(s@, pat@, i));
        return None;
    }
    if pat_len == 0 {
        assert(s@.subrange(0, 0) =~= pat@);
        return Some(0);
    }
    let mut i: usize = 0;
    while i <= s_len - pat_len
        invariant
            s_len == s@.len(),
            pat_len == pat@.len(),
            0 < pat_len <= s_len,
            0 <= i <= s_len - pat_len + 1,
            forall|j: int| 0 <= j < i ==> !occurs_at(s@, pat@, j),
        decreases s_len - i,
    {
        if occurs_at_exec(s, pat, i) {
            return Some(i);
        }
        i = i + 1;
    }
    assert(forall|j: int| occurs_at(s@, pat@, j) ==> 0 <= j <= s@.len() - pat@.len());
    None
}

/// Whether `pat` occurs anywhere in `s`.
pub fn str_contains(s: &str, pat: &str) -> (b: bool)
    ensures
        b == contains_seq(s@, pat@),
{
    find_sub(s, pat).is_some()
}

/// The Unicode white-space code points, the set that `char::is_whitespace`
/// accepts.
pub open spec fn is_ws_char(c: char) -> bool {
    ||| (0x09 <= c as u32 && c as u32 <= 0x0D)
    ||| c as u32 == 0x20
    ||| c as u32 == 0x85
    ||| c as u32 == 0xA0
    ||| c as u32 == 0x1680
    ||| (0x2000 <= c as u32 && c as u32 <= 0x200A)
    ||| c as u32 == 0x2028
    ||| c as u32 == 0x2029
    ||| c as u32 == 0x202F
    ||| c as u32 == 0x205F
    ||| c as u32 == 0x3000
}

/// White-space test on one character.
pub fn is_ws(c: char) -> (b: bool)
    ensures
        b == is_ws_char(c),
{
    let u = c as u32;
    (0x09 <= u && u <= 0x0D) || u == 0x20 || u == 0x85 || u == 0xA0 || u == 0x1680 || (0x2000
        <= u && u <= 0x200A) || u == 0x2028 || u == 0x2029 || u == 0x202F || u == 0x205F || u
        == 0x3000
}

/// `s` with leading white space removed.
pub open spec fn trim_start_spec(s: Seq<char>) -> Seq<char>
    decreases s.len(),
{
    if s.len() > 0 && is_ws_char(s[0]) {
        trim_start_spec(s.drop_first())
    } else {
        s
    }
}

/// `s` with trailing white space removed.
pub open spec fn trim_end_spec(s: Seq<char>) -> Seq<char>
    decreases s.len(),
{
    if s.len() > 0 && is_ws_char(s.last()) {
        trim_end_spec(s.drop_last())
    } else {
        s
    }
}

/// `s` with both leading and trailing white space removed, as `str::trim`.
pub open spec fn trim_spec(s: Seq<char>) -> Seq<char> {
    trim_end_spec(trim_start_spec(s))
}

proof fn lemma_trim_start_at(s: Seq<char>, a: int)
    requires
        0 <= a <= s.len(),
        forall|i: int| 0 <= i < a ==> is_ws_char(s[i]),
        a < s.len() ==> !is_ws_char(s[a]),
    ensures
        trim_start_spec(s) == s.subrange(a, s.len() as int),
    decreases a,
{
    if a == 0 {
        assert(s.subrange(0, s.len() as int) =~= s);
    } else {
        let t = s.drop_first();
        assert(forall|i: int| 0 <= i < a - 1 ==> t[i] == s[i + 1]);
        lemma_trim_start_at(t, a - 1);
        assert(t.subrange(a - 1, t.len() as int) =~= s.subrange(a, s.len() as int));
    }
}

proof fn lemma_trim_end_at(s: Seq<char>, b: int)
    requires
        0 <= b <= s.len(),
        forall|i: int| b <= i < s.len() ==> is_ws_char(s[i]),
        b > 0 ==> !is_ws_char(s[b - 1]),
    ensures
        trim_end_spec(s) == s.subrange(0, b),
    decreases s.len() - b,
{
    if b == s.len() {
        assert(s.subrange(0, b) =~= s);
    } else {
        let t = s.drop_last();
        lemma_trim_end_at(t, b);
        assert(t.subrange(0, b) =~= s.subrange(0, b));
    }
}

/// `str::trim`: the argument with leading and trailing white space removed.
pub fn trim(s: &str) -> (r: &str)
    ensures
        r@ == trim_spec(s@),
{
    let len = s.unicode_len();
    let mut a: usize = 0;
    while a < len && is_ws(s.get_char(a))
        invariant
            len == s@.len(),
            0 <= a <= len,
            forall|i: int| 0 <= i < a ==> is_ws_char(s@[i]),
        decreases len - a,
    {
        a = a + 1;
    }
    proof {
        lemma_trim_start_at(s@, a as int);
    }
    if a == len {
        let r = s.substring_char(a, len);
        assert(r@ =~= trim_spec(s@)) by {
            assert(trim_start_spec(s@) =~= Seq::<char>::empty());
        }
        return r;
    }
    let mut b: usize = len;
    while b > a && is_ws(s.get_char(b - 1))
        invariant
            len == s@.len(),
            a <= b <= len,
            forall|i: int| b <= i < len ==> is_ws_char(s@[i]),
        decreases b,
    {
        b = b - 1;
    }
    let r = s.substring_char(a, b);
    proof {
        let t = s@.subrange(a as int, len as int);
        assert(forall|i: int| b - a <= i < t.len() ==> is_ws_char(t[i]));
        assert(b > a ==> !is_ws_char(t[b - a - 1]));
        lemma_trim_end_at(t, b - a);
        assert(t.subrange(0, b - a) =~= s@.subrange(a as int, b as int));
    }
    r
}

/// Index of the first occurrence of `pat` in `s`; `s.len()` when `pat` is
/// nowhere in `s`.
pub open spec fn find_spec(s: Seq<char>, pat: Seq<char>) -> int
    decreases s.len(),
{
    if occurs_at(s, pat, 0) {
        0
    } else if s.len() == 0 {
        0
    } else {
        1 + find_spec(s.drop_first(), pat)
    }
}

proof fn lemma_occurs_shift(s: Seq<char>, pat: Seq<char>, j: int)
    requires
        1 <= j,
        s.len() > 0,
    ensures
        occurs_at(s, pat, j) == occurs_at(s.drop_first(), pat, j - 1),
{
    if j + pat.len() <= s.len() {
        assert(s.drop_first().subrange(j - 1, j - 1 + pat.len()) =~= s.subrange(
            j,
            j + pat.len(),
        ));
    }
}

/// `find_spec` names the first occurrence: it is within bounds, an
/// occurrence when one exists, and no occurrence lies before it.
pub proof fn lemma_find_spec(s: Seq<char>, pat: Seq<char>)
    ensures
        0 <= find_spec(s, pat) <= s.len(),
        contains_seq(s, pat) ==> occurs_at(s, pat, find_spec(s, pat)),
        forall|j: int| 0 <= j < find_spec(s, pat) ==> !occurs_at(s, pat, j),
        !contains_seq(s, pat) ==> find_spec(s, pat) == s.len(),
    decreases s.len(),
{
    if occurs_at(s, pat, 0) {
    } else if s.len() == 0 {
        assert forall|i: int| !occurs_at(s, pat, i) by {
            if 0 <= i && i + pat.len() <= s.len() {
                assert(i == 0 && pat.len() == 0);
            }
        }
    } else {
        let t = s.drop_first();
        lemma_find_spec(t, pat);
        let f = find_spec(s, pat);
        assert forall|j: int| 1 <= j implies occurs_at(s, pat, j) == occurs_at(t, pat, j - 1) by {
            lemma_occurs_shift(s, pat, j);
        }
        if contains_seq(t, pat) {
            assert(occurs_at(s, pat, f));
        }
        if contains_seq(s, pat) {
            let w = choose|i: int| occurs_at(s, pat, i);
            assert(w >= 1);
            assert(occurs_at(t, pat, w - 1));
        }
    }
}

/// Index of the first white-space character of `s`; `s.len()` when there is
/// none.
pub open spec fn first_ws(s: Seq<char>) -> int
    decreases s.len(),
{
    if s.len() == 0 {
        0
    } else if is_ws_char(s[0]) {
        0
    } else {
        1 + first_ws(s.drop_first())
    }
}

proof fn lemma_first_ws_at(s: Seq<char>, a: int)
    requires
        0 <= a <= s.len(),
        forall|i: int| 0 <= i < a ==> !is_ws_char(s[i]),
        a < s.len() ==> is_ws_char(s[a]),
    ensures
        first_ws(s) == a,
    decreases a,
{
    if a == 0 {
    } else {
        let t = s.drop_first();
        assert(forall|i: int| 0 <= i < a - 1 ==> t[i] == s[i + 1]);
        lemma_first_ws_at(t, a - 1);
    }
}

/// Index of the first white-space character, as `first_ws` names it.
pub fn find_ws_index(s: &str) -> (r: usize)
    ensures
        r == first_ws(s@),
        r <= s@.len(),
{
    let len = s.unicode_len();
    let mut i: usize = 0;
    while i < len && !is_ws(s.get_char(i))
        invariant
            len == s@.len(),
            0 <= i <= len,
            forall|j: int| 0 <= j < i ==> !is_ws_char(s@[j]),
        decreases len - i,
    {
        i = i + 1;
    }
    proof {
        lemma_first_ws_at(s@, i as int);
    }
    i
}

/// Index of the first occurrence of the character `c` in `s`, if any.
pub fn find_char(s: &str, c: char) -> (r: Option<usize>)
    ensures
        match r {
            Some(i) => i < s@.len() && s@[i as int] == c && forall|j: int|
                0 <= j < i ==> s@[j] != c,
            None => forall|j: int| 0 <= j < s@.len() ==> s@[j] != c,
        },
{
    let len = s.unicode_len();
    let mut i: usize = 0;
    while i < len
        invariant
            len == s@.len(),
            0 <= i <= len,
            forall|j: int| 0 <= j < i ==> s@[j] != c,
        decreases len - i,
    {
        if s.get_char(i) == c {
            return Some(i);
        }
        i = i + 1;
    }
    None
}

/// A decimal digit.
pub open spec fn is_digit_char(c: char) -> bool {
    48 <= c as u32 && c as u32 <= 57
}

/// The numeric value of a decimal digit.
pub open spec fn digit_val(c: char) -> nat {
    (c as u32 - 48) as nat
}

/// Every character of `s` is a decimal digit.
pub open spec fn all_digits(s: Seq<char>) -> bool {
    forall|i: int| 0 <= i < s.len() ==> is_digit_char(s[i])
}

/// The number written in decimal by `s`, most significant digit first.
pub open spec fn digits_to_nat(s: Seq<char>) -> nat
    decreases s.len(),
{
    if s.len() == 0 {
        0
    } else {
        digits_to_nat(s.drop_last()) * 10 + digit_val(s.last())
    }
}

/// What `str::parse::<u32>` returns: an optional leading `+`, then at least
/// one digit and nothing else, with the value within range.
pub open spec fn parse_u32_spec(s: Seq<char>) -> Option<u32> {
    let body = if s.len() > 0 && s[0] == '+' {
        s.drop_first()
    } else {
        s
    };
    if body.len() > 0 && all_digits(body) && digits_to_nat(body) <= u32::MAX {
        Some(digits_to_nat(body) as u32)
    } else {
        None
    }
}

proof fn lemma_digits_prefix_le(s: Seq<char>, i: int)
    requires
        0 <= i <= s.len(),
    ensures
        digits_to_nat(s.take(i)) <= digits_to_nat(s),
    decreases s.len() - i,
{
    if i < s.len() {
        assert(s.take(i + 1).drop_last() =~= s.take(i));
        assert(digits_to_nat(s.take(i + 1)) == digits_to_nat(s.take(i)) * 10 + digit_val(
            s.take(i + 1).last(),
        ));
        lemma_digits_prefix_le(s, i + 1);
    } else {
        assert(s.take(i) =~= s);
    }
}

/// `str::parse::<u32>` on `s`: `Some` exactly when `s` is an optional `+`
/// followed by one or more decimal digits whose value fits in a `u32`.
pub fn parse_u32(s: &str) -> (r: Option<u32>)
    ensures
        r == parse_u32_spec(s@),
{
    let len = s.unicode_len();
    let start: usize = if len > 0 && s.get_char(0) == '+' {
        1
    } else {
        0
    };
    let ghost body = if s@.len() > 0 && s@[0] == '+' {
        s@.drop_first()
    } else {
        s@
    };
    assert(body =~= s@.subrange(start as int, len as int));
    if start == len {
        return None;
    }
    let mut acc: u64 = 0;
    let mut i: usize = start;
    while i < len
        invariant
            len == s@.len(),
            start <= i <= len,
            start <= 1,
            body == s@.subrange(start as int, len as int),
            body == (if s@.len() > 0 && s@[0] == '+' {
                s@.drop_first()
            } else {
                s@
            }),
            all_digits(body.take(i - start)),
            acc == digits_to_nat(body.take(i - start)),
            acc <= u32::MAX,
        decreases len - i,
    {
        let c = s.get_char(i);
        let u = c as u32;
        if !(48 <= u && u <= 57) {
            assert(!all_digits(body)) by {
                assert(!is_digit_char(body[i - start]));
            }
            return None;
        }
        let d = (u - 48) as u64;
        let next: u64 = acc * 10 + d;
        proof {
            assert(body.take(i - start + 1).drop_last() =~= body.take(i - start));
            assert(body.take(i - start + 1).last() == body[i - start]);
        }
        if next > 0xFFFF_FFFF {
            proof {
                assert(digit_val(body[i - start]) == d);
                assert(digits_to_nat(body.take(i - start + 1)) == acc * 10 + d);
                lemma_digits_prefix_le(body, i - start + 1);
                assert(digits_to_nat(body) > u32::MAX);
            }
            return None;
        }
        acc = next;
        i = i + 1;
    }
    assert(body.take(len - start) =~= body);
    Some(acc as u32)
}

} // verus!
