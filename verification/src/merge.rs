//! The marker merger: resolves a token stream into the final text. Each
//! maximal run of consecutive markers becomes a single space when the run
//! has length one and stands strictly between non-white-space output, and
//! nothing otherwise; no marker ever reaches the output.

use vstd::prelude::*;

use crate::punct::Token;

verus! {

/// The Unicode white-space code points, exactly those that std's
/// `char::is_whitespace` recognizes (the White_Space property).
pub open spec fn is_ws_char(c: char) -> bool {
    let u = c as int;
    ||| u == 0x20
    ||| (0x9 <= u && u <= 0xd)
    ||| u == 0x85
    ||| u == 0xa0
    ||| u == 0x1680
    ||| (0x2000 <= u && u <= 0x200a)
    ||| u == 0x2028
    ||| u == 0x2029
    ||| u == 0x202f
    ||| u == 0x205f
    ||| u == 0x3000
}

/// Whether `c` is white space, by the same table as `is_ws_char`.
pub fn char_is_ws(c: char) -> (r: bool)
    ensures
        r == is_ws_char(c),
{
    let u = c as u32;
    u == 0x20 || (0x9 <= u && u <= 0xd) || u == 0x85 || u == 0xa0 || u == 0x1680 || (0x2000 <= u
        && u <= 0x200a) || u == 0x2028 || u == 0x2029 || u == 0x202f || u == 0x205f || u == 0x3000
}

/// The merge scan from a given state: `prev_ws` says whether the last
/// emitted character was white space (true at the start, so a leading
/// marker run never produces a leading space), `pending` counts the
/// markers seen since the last literal, capped at two. A literal is
/// emitted as itself, preceded by one space exactly when a single pending
/// marker stands between non-white-space output on both sides; trailing
/// markers emit nothing.
pub open spec fn merge_from(ts: Seq<Token>, prev_ws: bool, pending: int) -> Seq<char>
    decreases ts.len(),
{
    if ts.len() == 0 {
        Seq::empty()
    } else {
        match ts[0] {
            Token::Marker => merge_from(
                ts.drop_first(),
                prev_ws,
                if pending < 2 {
                    pending + 1
                } else {
                    2
                },
            ),
            Token::Lit(c) => if pending == 1 && !prev_ws && !is_ws_char(c) {
                seq![' ', c] + merge_from(ts.drop_first(), is_ws_char(c), 0)
            } else {
                seq![c] + merge_from(ts.drop_first(), is_ws_char(c), 0)
            },
        }
    }
}

/// The text a token stream merges to.
pub open spec fn merged(ts: Seq<Token>) -> Seq<char> {
    merge_from(ts, true, 0)
}

/// Relies on std's `FromIterator<char> for String` through `collect`: the
/// resulting string holds exactly the characters of `v`, in order.
#[verifier::external_body]
fn chars_to_string(v: &Vec<char>) -> (r: String)
    ensures
        r@ == v@,
{
    v.iter().collect()
}

/// Resolves every spacing marker of the token stream, producing the final
/// human-readable text.
pub fn merge_chars(tokens: &Vec<Token>) -> (r: String)
    ensures
        r@ == merged(tokens@),
{
    let mut out: Vec<char> = Vec::new();
    let mut prev_ws: bool = true;
    let mut pending: usize = 0;
    let mut i: usize = 0;
    proof {
        assert(tokens@.skip(0) =~= tokens@);
    }
    while i < tokens.len()
        invariant
            i <= tokens@.len(),
            pending <= 2,
            merged(tokens@) == out@ + merge_from(tokens@.skip(i as int), prev_ws, pending as int),
        decreases tokens@.len() - i,
    {
        proof {
            assert(tokens@.skip(i as int)[0] == tokens@[i as int]);
            assert(tokens@.skip(i as int).drop_first() =~= tokens@.skip(i as int + 1));
        }
        match tokens[i] {
            Token::Marker => {
                if pending < 2 {
                    pending = pending + 1;
                }
            },
            Token::Lit(c) => {
                if pending == 1 && !prev_ws && !char_is_ws(c) {
                    out.push(' ');
                }
                out.push(c);
                prev_ws = char_is_ws(c);
                pending = 0;
            },
        }
        i = i + 1;
    }
    proof {
        assert(tokens@.skip(tokens@.len() as int) =~= Seq::<Token>::empty());
    }
    chars_to_string(&out)
}

} // verus!
