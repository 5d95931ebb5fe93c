//! Tokenization of key-value command text on Unicode whitespace: the
//! command verb and its positional arguments are the maximal
//! whitespace-free runs, in order. There is no quoting, so a value
//! containing whitespace cannot be expressed.

use vstd::prelude::*;
use vstd::string::StrSliceExecFns;

verus! {

/// Whitespace as the command splitter recognizes it: the characters with
/// the Unicode White_Space property.
pub open spec fn is_ws(c: char) -> bool {
    c == ' ' || c == '\t' || c == '\n' || c == '\r' || c == '\x0b' || c == '\x0c' || c == '\u{85}'
        || c == '\u{a0}' || c == '\u{1680}' || ('\u{2000}' <= c && c <= '\u{200a}') || c
        == '\u{2028}' || c == '\u{2029}' || c == '\u{202f}' || c == '\u{205f}' || c == '\u{3000}'
}

fn is_ws_char(c: char) -> (r: bool)
    ensures
        r == is_ws(c),
{
    c == ' ' || c == '\t' || c == '\n' || c == '\r' || c == '\x0b' || c == '\x0c' || c == '\u{85}'
        || c == '\u{a0}' || c == '\u{1680}' || ('\u{2000}' <= c && c <= '\u{200a}') || c
        == '\u{2028}' || c == '\u{2029}' || c == '\u{202f}' || c == '\u{205f}' || c == '\u{3000}'
}

/// Length of the leading whitespace-free run.
pub open spec fn tok_run(s: Seq<char>) -> int
    decreases s.len(),
{
    if s.len() == 0 || is_ws(s[0]) {
        0
    } else {
        1 + tok_run(s.skip(1))
    }
}

pub proof fn lemma_tok_run_bounds(s: Seq<char>)
    ensures
        0 <= tok_run(s) <= s.len(),
    decreases s.len(),
{
    if !(s.len() == 0 || is_ws(s[0])) {
        lemma_tok_run_bounds(s.skip(1));
    }
}

/// The run length is pinned by its characters: `r` whitespace-free
/// characters followed by the end or a whitespace character.
proof fn lemma_tok_run_exact(s: Seq<char>, r: int)
    requires
        0 <= r <= s.len(),
        forall|i: int| 0 <= i < r ==> !is_ws(#[trigger] s[i]),
        r == s.len() || is_ws(s[r]),
    ensures
        tok_run(s) == r,
    decreases s.len(),
{
    if r == 0 {
    } else {
        assert(!is_ws(s[0]));
        assert(forall|i: int| 0 <= i < r - 1 ==> !is_ws(#[trigger] s.skip(1)[i]));
        lemma_tok_run_exact(s.skip(1), r - 1);
    }
}

#[via_fn]
proof fn ws_tokens_decreases(s: Seq<char>) {
    if s.len() > 0 && !is_ws(s[0]) {
        lemma_tok_run_bounds(s);
        lemma_tok_run_bounds(s.skip(1));
    }
}

/// The tokens of `s`: its maximal whitespace-free runs, in order.
pub open spec fn ws_tokens(s: Seq<char>) -> Seq<Seq<char>>
    decreases s.len(),
    via ws_tokens_decreases
{
    if s.len() == 0 {
        Seq::empty()
    } else if is_ws(s[0]) {
        ws_tokens(s.skip(1))
    } else {
        seq![s.take(tok_run(s))] + ws_tokens(s.skip(tok_run(s)))
    }
}

/// A text has no tokens exactly when it is empty or all whitespace.
pub proof fn lemma_ws_tokens_empty(s: Seq<char>)
    ensures
        ws_tokens(s).len() == 0 <==> (forall|i: int| 0 <= i < s.len() ==> is_ws(#[trigger] s[i])),
    decreases s.len(),
{
    if s.len() == 0 {
    } else if is_ws(s[0]) {
        lemma_ws_tokens_empty(s.skip(1));
        if ws_tokens(s).len() == 0 {
            assert forall|i: int| 0 <= i < s.len() implies is_ws(#[trigger] s[i]) by {
                if i > 0 {
                    assert(s.skip(1)[i - 1] == s[i]);
                }
            }
        } else {
            let w = choose|i: int| 0 <= i < s.skip(1).len() && !is_ws(s.skip(1)[i]);
            assert(s.skip(1)[w] == s[w + 1]);
            assert(!is_ws(s[w + 1]));
        }
    } else {
        assert(ws_tokens(s) == seq![s.take(tok_run(s))] + ws_tokens(s.skip(tok_run(s))));
        assert(ws_tokens(s).len() > 0);
        assert(!is_ws(s[0]));
    }
}

/// Splits command text on whitespace into its tokens.
pub fn tokenize(command: &str) -> (r: Vec<String>)
    ensures
        r.deep_view() == ws_tokens(command@),
{
    let n = command.unicode_len();
    let mut parts: Vec<String> = Vec::new();
    let mut i: usize = 0;
    proof {
        assert(parts.deep_view() =~~= Seq::<Seq<char>>::empty());
        assert(command@.skip(0) =~= command@);
        assert(parts.deep_view() + ws_tokens(command@.skip(0)) =~~= ws_tokens(command@));
    }
    while i < n
        invariant
            n == command@.len(),
            i <= n,
            parts.deep_view() + ws_tokens(command@.skip(i as int)) == ws_tokens(command@),
        decreases n - i,
    {
        let c = command.get_char(i);
        if is_ws_char(c) {
            proof {
                assert(command@.skip(i as int)[0] == command@[i as int]);
                assert(command@.skip(i as int).skip(1) =~= command@.skip(i + 1 as int));
            }
            i = i + 1;
        } else {
            let start = i;
            i = i + 1;
            while i < n
                invariant
                    n == command@.len(),
                    start < i <= n,
                    forall|j: int| start <= j < i ==> !is_ws(#[trigger] command@[j]),
                ensures
                    n == command@.len(),
                    start < i <= n,
                    forall|j: int| start <= j < i ==> !is_ws(#[trigger] command@[j]),
                    i == n || is_ws(command@[i as int]),
                decreases n - i,
            {
                let c2 = command.get_char(i);
                if is_ws_char(c2) {
                    break;
                }
                i = i + 1;
            }
            let tok = command.substring_char(start, i).to_owned();
            proof {
                let s = command@;
                let suffix = s.skip(start as int);
                assert(forall|j: int|
                    0 <= j < i - start ==> !is_ws(#[trigger] suffix[j]) && suffix[j] == s[j
                        + start]);
                lemma_tok_run_exact(suffix, i - start);
                assert(suffix.take(i - start) =~= s.subrange(start as int, i as int));
                assert(suffix.skip(i - start) =~= s.skip(i as int));
                assert(ws_tokens(suffix) =~~= seq![tok@] + ws_tokens(s.skip(i as int)));
            }
            let ghost old_dv = parts.deep_view();
            parts.push(tok);
            proof {
                assert(parts.deep_view() =~~= old_dv.push(tok@));
                assert(parts.deep_view() + ws_tokens(command@.skip(i as int)) =~~= ws_tokens(
                    command@,
                ));
            }
        }
    }
    proof {
        assert(command@.skip(n as int) =~= Seq::<char>::empty());
        assert(parts.deep_view() =~~= ws_tokens(command@));
    }
    parts
}

} // verus!
