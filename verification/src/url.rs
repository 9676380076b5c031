//! Extraction of the deployment URL from the deployment collaborator's
//! captured stdout: the first line holding both `https://` and the hosted
//! domain suffix yields the text from `https://` up to the first white
//! space.

use vstd::prelude::*;
use crate::text::{
    contains_seq, find_spec, find_sub, find_char, find_ws_index, first_ws, lemma_find_spec,
    str_contains,
};

verus! {

/// A line of output with its terminator removed: the content before `\n`,
/// less a trailing `\r`, as `str::lines` yields it.
pub open spec fn strip_cr(l: Seq<char>) -> Seq<char> {
    if l.len() > 0 && l.last() == '\r' {
        l.drop_last()
    } else {
        l
    }
}

/// The lines of `s`, split at `\n`, each with a trailing `\r` removed; a
/// final empty segment after a trailing `\n` is not a line.
pub open spec fn lines_spec(s: Seq<char>) -> Seq<Seq<char>>
    decreases s.len(),
{
    if s.len() == 0 {
        Seq::empty()
    } else {
        match s.index_of_first('\n') {
            Some(i) => if 0 <= i < s.len() {
                seq![strip_cr(s.take(i))] + lines_spec(s.skip(i + 1))
            } else {
                seq![strip_cr(s)]
            },
            None => seq![strip_cr(s)],
        }
    }
}

/// A line that reports the deployment URL: it holds `https://` and the
/// hosted-domain suffix.
pub open spec fn line_matches(l: Seq<char>) -> bool {
    contains_seq(l, "https://"@) && contains_seq(l, ".vercel.app"@)
}

/// The URL a matching line reports: from the first `https://` up to, not
/// including, the first white-space character after it; to the end of the
/// line when none follows.
pub open spec fn url_of_line(l: Seq<char>) -> Seq<char> {
    let tail = l.skip(find_spec(l, "https://"@));
    tail.take(first_ws(tail))
}

/// The URL of the first matching line, if any line matches.
pub open spec fn first_match(ls: Seq<Seq<char>>) -> Option<Seq<char>>
    decreases ls.len(),
{
    if ls.len() == 0 {
        None
    } else if line_matches(ls[0]) {
        Some(url_of_line(ls[0]))
    } else {
        first_match(ls.drop_first())
    }
}

/// What URL extraction yields on the whole captured stdout.
pub open spec fn extract_url_spec(out: Seq<char>) -> Option<Seq<char>> {
    first_match(lines_spec(out))
}

/// Removes the line terminator: `l` is one raw line (no `\n` inside).
fn strip_cr_exec(l: &str) -> (r: &str)
    ensures
        r@ == strip_cr(l@),
{
    let len = l.unicode_len();
    if len > 0 && l.get_char(len - 1) == '\r' {
        let r = l.substring_char(0, len - 1);
        assert(r@ =~= l@.drop_last());
        r
    } else {
        l
    }
}

/// The URL of one matching line.
fn url_from_line(line: &str) -> (r: String)
    requires
        line_matches(line@),
    ensures
        r@ == url_of_line(line@),
{
    let len = line.unicode_len();
    let start = match find_sub(line, "https://") {
        Some(i) => i,
        None => vstd::pervasive::unreached(),
    };
    proof {
        lemma_find_spec(line@, "https://"@);
        assert(start as int == find_spec(line@, "https://"@));
    }
    let tail = line.substring_char(start, len);
    assert(tail@ =~= line@.skip(start as int));
    let e = find_ws_index(tail);
    proof {
        if first_ws(tail@) == tail@.len() {
            assert(tail@.take(first_ws(tail@)) =~= tail@);
        }
    }
    let url = tail.substring_char(0, e);
    assert(url@ =~= tail@.take(e as int));
    url.to_owned()
}

/// Scans the collaborator's stdout for a line holding `https://` and the
/// hosted-domain suffix, and returns the URL written there: the text from
/// `https://` to the first following white space. `None` when no line
/// matches; that is a degraded success, not an error.
pub fn extract_vercel_url(output: &str) -> (r: Option<String>)
    ensures
        match r {
            Some(u) => extract_url_spec(output@) == Some(u@),
            None => extract_url_spec(output@) is None,
        },
{
    let mut rest: &str = output;
    loop
        invariant
            extract_url_spec(output@) == first_match(lines_spec(rest@)),
        decreases rest@.len(),
    {
        let rest_len = rest.unicode_len();
        if rest_len == 0 {
            return None;
        }
        let (raw_line, next_rest): (&str, &str) = match find_char(rest, '\n') {
            Some(i) => (rest.substring_char(0, i), rest.substring_char(i + 1, rest_len)),
            None => (rest, rest.substring_char(rest_len, rest_len)),
        };
        let line = strip_cr_exec(raw_line);
        proof {
            rest@.index_of_first_ensures('\n');
            match rest@.index_of_first('\n') {
                Some(i) => {
                    assert(raw_line@ =~= rest@.take(i));
                    assert(next_rest@ =~= rest@.skip(i + 1));
                    assert(lines_spec(rest@) == seq![strip_cr(rest@.take(i))] + lines_spec(
                        rest@.skip(i + 1),
                    ));
                    assert(lines_spec(rest@)[0] == line@);
                    assert(lines_spec(rest@).drop_first() =~= lines_spec(next_rest@));
                },
                None => {
                    assert(raw_line@ =~= rest@);
                    assert(next_rest@ =~= rest@.skip(rest@.len() as int));
                    assert(next_rest@.len() == 0);
                    assert(lines_spec(rest@) == seq![strip_cr(rest@)]);
                    assert(lines_spec(rest@)[0] == line@);
                    assert(lines_spec(rest@).drop_first() =~= lines_spec(next_rest@));
                },
            }
        }
        if str_contains(line, "https://") && str_contains(line, ".vercel.app") {
            let url = url_from_line(line);
            return Some(url);
        }
        rest = next_rest;
    }
}

} // verus!
