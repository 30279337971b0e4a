//! Laws of the conversion pipeline, proved once and for all: a second
//! conversion cycle finds nothing to do, no marker ever leaks into the
//! output, and the spacing rules hold of every token stream.

use vstd::prelude::*;

use crate::merge::{is_ws_char, merge_from, merged};
use crate::pipeline::{converted_text, rewritten_text};
use crate::punct::{char_tokens, has_mapped, is_mapped, str_tokens, Token};

verus! {

/// The half-width characters the conversion table emits as literals.
pub open spec fn rule_literal(c: char) -> bool {
    ||| c == '>'
    ||| c == '<'
    ||| c == ':'
    ||| c == ';'
    ||| c == '"'
    ||| c == '!'
    ||| c == '.'
    ||| c == '('
    ||| c == ')'
    ||| c == '['
    ||| c == ']'
    ||| c == ','
    ||| c == '?'
}

/// What may stand behind a literal token produced from the sequence `s`:
/// a table literal or a character of `s` the table does not recognize.
/// Marker tokens carry no character at all.
pub open spec fn token_from_input(t: Token, s: Seq<char>) -> bool {
    match t {
        Token::Marker => true,
        Token::Lit(l) => !is_mapped(l) && (rule_literal(l) || s.contains(l)),
    }
}

/// Every token a single character produces carries either a table
/// literal or the character itself, never a recognized code point.
proof fn lemma_char_tokens_from_input(c: char)
    ensures
        forall|i: int|
            0 <= i < char_tokens(c).len() ==> token_from_input(
                #[trigger] char_tokens(c)[i],
                seq![c],
            ),
{
    assert(seq![c].contains(c)) by {
        assert(seq![c][0] == c);
    }
}

/// Every token a whole sequence produces carries either a table literal
/// or a character of the sequence, never a recognized code point.
proof fn lemma_str_tokens_from_input(s: Seq<char>)
    ensures
        forall|i: int|
            0 <= i < str_tokens(s).len() ==> token_from_input(#[trigger] str_tokens(s)[i], s),
    decreases s.len(),
{
    if s.len() > 0 {
        let pre = s.drop_last();
        let c = s.last();
        lemma_str_tokens_from_input(pre);
        lemma_char_tokens_from_input(c);
        assert forall|i: int|
            0 <= i < str_tokens(s).len() implies token_from_input(
            #[trigger] str_tokens(s)[i],
            s,
        ) by {
            if i < str_tokens(pre).len() {
                assert(str_tokens(s)[i] == str_tokens(pre)[i]);
                assert(token_from_input(str_tokens(pre)[i], pre));
                match str_tokens(pre)[i] {
                    Token::Lit(l) => {
                        if pre.contains(l) {
                            let j = choose|j: int| 0 <= j < pre.len() && pre[j] == l;
                            assert(s[j] == l);
                        }
                    },
                    Token::Marker => {
                    },
                }
            } else {
                let k = i - str_tokens(pre).len();
                assert(str_tokens(s)[i] == char_tokens(c)[k]);
                assert(token_from_input(char_tokens(c)[k], seq![c]));
                match char_tokens(c)[k] {
                    Token::Lit(l) => {
                        if seq![c].contains(l) {
                            assert(l == c);
                            assert(s[s.len() - 1] == c);
                        }
                    },
                    Token::Marker => {
                    },
                }
            }
        }
    }
}

/// Every character the merge emits is an inserted space or stands in some
/// literal token of the stream.
proof fn lemma_merge_output_chars(ts: Seq<Token>, prev_ws: bool, pending: int)
    ensures
        forall|k: int|
            0 <= k < merge_from(ts, prev_ws, pending).len() ==> (#[trigger] merge_from(
                ts,
                prev_ws,
                pending,
            )[k]) == ' ' || exists|i: int|
                0 <= i < ts.len() && (#[trigger] ts[i]) == Token::Lit(
                    merge_from(ts, prev_ws, pending)[k],
                ),
    decreases ts.len(),
{
    if ts.len() > 0 {
        let out = merge_from(ts, prev_ws, pending);
        let rest = ts.drop_first();
        match ts[0] {
            Token::Marker => {
                let np = if pending < 2 {
                    pending + 1
                } else {
                    2
                };
                lemma_merge_output_chars(rest, prev_ws, np);
                assert forall|k: int| 0 <= k < out.len() implies out[k] == ' ' || exists|i: int|
                    0 <= i < ts.len() && ts[i] == Token::Lit(out[k]) by {
                    let sub = merge_from(rest, prev_ws, np);
                    assert(out == sub);
                    if out[k] != ' ' {
                        let i = choose|i: int| 0 <= i < rest.len() && rest[i] == Token::Lit(
                            sub[k],
                        );
                        assert(ts[i + 1] == rest[i]);
                    }
                }
            },
            Token::Lit(c) => {
                lemma_merge_output_chars(rest, is_ws_char(c), 0);
                let sub = merge_from(rest, is_ws_char(c), 0);
                let head = if pending == 1 && !prev_ws && !is_ws_char(c) {
                    seq![' ', c]
                } else {
                    seq![c]
                };
                assert(out == head + sub);
                assert forall|k: int| 0 <= k < out.len() implies out[k] == ' ' || exists|i: int|
                    0 <= i < ts.len() && ts[i] == Token::Lit(out[k]) by {
                    if k < head.len() {
                        if out[k] != ' ' {
                            assert(out[k] == c);
                            assert(ts[0] == Token::Lit(out[k]));
                        }
                    } else {
                        let m = k - head.len();
                        assert(out[k] == sub[m]);
                        if out[k] != ' ' {
                            let i = choose|i: int| 0 <= i < rest.len() && rest[i] == Token::Lit(
                                sub[m],
                            );
                            assert(ts[i + 1] == rest[i]);
                        }
                    }
                }
            },
        }
    }
}

/// No marker ever leaks: every character of a conversion's output is an
/// inserted space, a half-width literal of the table, or a character of
/// the input itself. The spacing marker is a token variant, not a
/// character, so no output character can ever be one.
pub proof fn lemma_no_marker_leak(s: Seq<char>)
    ensures
        forall|k: int|
            0 <= k < converted_text(s).len() ==> (#[trigger] converted_text(s)[k]) == ' '
                || rule_literal(converted_text(s)[k]) || s.contains(converted_text(s)[k]),
{
    lemma_str_tokens_from_input(s);
    lemma_merge_output_chars(str_tokens(s), true, 0);
    let out = converted_text(s);
    assert forall|k: int| 0 <= k < out.len() implies out[k] == ' ' || rule_literal(out[k])
        || s.contains(out[k]) by {
        if out[k] != ' ' {
            let i = choose|i: int|
                0 <= i < str_tokens(s).len() && str_tokens(s)[i] == Token::Lit(out[k]);
            assert(token_from_input(str_tokens(s)[i], s));
        }
    }
}

/// Converted output holds no recognized code point at all: the table
/// replaces every recognized character and leaves only half-width
/// literals, inserted spaces and unrecognized input characters.
pub proof fn lemma_converted_unmapped(s: Seq<char>)
    ensures
        !has_mapped(converted_text(s)),
{
    lemma_str_tokens_from_input(s);
    lemma_merge_output_chars(str_tokens(s), true, 0);
    let out = converted_text(s);
    if has_mapped(out) {
        let k = choose|k: int| 0 <= k < out.len() && is_mapped(out[k]);
        assert(out[k] != ' ');
        let i = choose|i: int|
            0 <= i < str_tokens(s).len() && str_tokens(s)[i] == Token::Lit(out[k]);
        assert(token_from_input(str_tokens(s)[i], s));
        assert(!is_mapped(out[k]));
    }
}

/// Idempotence: after one conversion cycle the text, changed or not,
/// contains no recognized punctuation, so a second cycle reports nothing
/// to do.
pub proof fn lemma_convert_idempotent(s: Seq<char>)
    ensures
        !has_mapped(rewritten_text(s)),
{
    if has_mapped(s) {
        lemma_converted_unmapped(s);
    }
}

/// The conversion outcome is closed under concatenation: a combined
/// sequence holds a recognized code point exactly when either part does,
/// so folding outcomes left to right yields `Converted` exactly when some
/// character anywhere was substituted.
pub proof fn lemma_outcome_concat(s: Seq<char>, t: Seq<char>)
    ensures
        has_mapped(s + t) == (has_mapped(s) || has_mapped(t)),
{
    if has_mapped(s) {
        let i = choose|i: int| 0 <= i < s.len() && is_mapped(s[i]);
        assert((s + t)[i] == s[i]);
    }
    if has_mapped(t) {
        let i = choose|i: int| 0 <= i < t.len() && is_mapped(t[i]);
        assert((s + t)[s.len() + i] == t[i]);
    }
    if has_mapped(s + t) {
        let i = choose|i: int| 0 <= i < (s + t).len() && is_mapped((s + t)[i]);
        if i < s.len() {
            assert(s[i] == (s + t)[i]);
        } else {
            assert(t[i - s.len()] == (s + t)[i]);
        }
    }
}

/// A run of `k` markers.
pub open spec fn marker_run(k: nat) -> Seq<Token> {
    Seq::new(k, |i: int| Token::Marker)
}

/// Marker counts saturate at two.
spec fn cap2(n: int) -> int {
    if n < 2 {
        n
    } else {
        2
    }
}

/// Scanning a run of markers only raises the pending count, capped at
/// two; nothing is emitted until the next literal.
proof fn lemma_marker_run_state(k: nat, x: Seq<Token>, prev_ws: bool, pending: int)
    requires
        0 <= pending <= 2,
    ensures
        merge_from(marker_run(k) + x, prev_ws, pending) == merge_from(
            x,
            prev_ws,
            cap2(pending + k),
        ),
    decreases k,
{
    if k == 0 {
        assert(marker_run(0) + x =~= x);
    } else {
        let full = marker_run(k) + x;
        assert(full[0] == Token::Marker);
        assert(full.drop_first() =~= marker_run((k - 1) as nat) + x);
        let np = if pending < 2 {
            pending + 1
        } else {
            2
        };
        lemma_marker_run_state((k - 1) as nat, x, prev_ws, np);
        assert(cap2(np + (k - 1)) == cap2(pending + k));
    }
}

/// Unfolds the merge over a leading literal.
proof fn lemma_merge_lit(c: char, rest: Seq<Token>, prev_ws: bool, pending: int)
    ensures
        merge_from(seq![Token::Lit(c)] + rest, prev_ws, pending) == (if pending == 1 && !prev_ws
            && !is_ws_char(c) {
            seq![' ', c]
        } else {
            seq![c]
        }) + merge_from(rest, is_ws_char(c), 0),
{
    let full = seq![Token::Lit(c)] + rest;
    assert(full[0] == Token::Lit(c));
    assert(full.drop_first() =~= rest);
}

/// Spacing law, lone marker: a single marker whose neighbours on both
/// sides are emitted non-white-space characters becomes exactly one
/// space. `prev_ws == false` says the character emitted before the run
/// was not white space.
pub proof fn lemma_lone_marker_space(b: char, rest: Seq<Token>)
    requires
        !is_ws_char(b),
    ensures
        merge_from(marker_run(1) + (seq![Token::Lit(b)] + rest), false, 0) == seq![' ', b]
            + merge_from(rest, is_ws_char(b), 0),
{
    lemma_marker_run_state(1, seq![Token::Lit(b)] + rest, false, 0);
    lemma_merge_lit(b, rest, false, 1);
}

/// Spacing law, collapsed run: two or more consecutive markers emit
/// nothing, and the literal after them gets no space, whatever came
/// before.
pub proof fn lemma_marker_run_collapses(k: nat, b: char, rest: Seq<Token>, prev_ws: bool)
    requires
        k >= 2,
    ensures
        merge_from(marker_run(k) + (seq![Token::Lit(b)] + rest), prev_ws, 0) == seq![b]
            + merge_from(rest, is_ws_char(b), 0),
{
    lemma_marker_run_state(k, seq![Token::Lit(b)] + rest, prev_ws, 0);
    lemma_merge_lit(b, rest, prev_ws, 2);
}

/// Spacing law, markers at the end: a run of markers with nothing after
/// it emits nothing, whatever its length.
pub proof fn lemma_trailing_markers_vanish(k: nat, prev_ws: bool, pending: int)
    requires
        0 <= pending <= 2,
    ensures
        merge_from(marker_run(k), prev_ws, pending) == Seq::<char>::empty(),
{
    assert(marker_run(k) + Seq::<Token>::empty() =~= marker_run(k));
    lemma_marker_run_state(k, Seq::<Token>::empty(), prev_ws, pending);
}

/// Spacing law, marker after white space: a lone marker emits nothing
/// when the character emitted before it was white space, or when it
/// stands at the very beginning.
pub proof fn lemma_marker_after_whitespace(b: char, rest: Seq<Token>)
    ensures
        merge_from(marker_run(1) + (seq![Token::Lit(b)] + rest), true, 0) == seq![b] + merge_from(
            rest,
            is_ws_char(b),
            0,
        ),
{
    lemma_marker_run_state(1, seq![Token::Lit(b)] + rest, true, 0);
    lemma_merge_lit(b, rest, true, 1);
}

/// Spacing law, marker before white space: a lone marker emits nothing
/// when the next emitted character is itself white space.
pub proof fn lemma_marker_before_whitespace(b: char, rest: Seq<Token>, prev_ws: bool)
    requires
        is_ws_char(b),
    ensures
        merge_from(marker_run(1) + (seq![Token::Lit(b)] + rest), prev_ws, 0) == seq![b]
            + merge_from(rest, is_ws_char(b), 0),
{
    lemma_marker_run_state(1, seq![Token::Lit(b)] + rest, prev_ws, 0);
    lemma_merge_lit(b, rest, prev_ws, 1);
}

/// A whole merge starts as if white space had just been emitted, so a
/// leading marker run never produces a leading space.
pub proof fn lemma_leading_markers_vanish(k: nat, b: char, rest: Seq<Token>)
    ensures
        merged(marker_run(k) + (seq![Token::Lit(b)] + rest)) == seq![b] + merge_from(
            rest,
            is_ws_char(b),
            0,
        ),
{
    lemma_marker_run_state(k, seq![Token::Lit(b)] + rest, true, 0);
    lemma_merge_lit(b, rest, true, cap2(k as int));
}

} // verus!
