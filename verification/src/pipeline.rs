//! The conversion pipeline: map every character of a string through the
//! table, fold the outcomes, and either report the input unchanged or
//! merge the token stream into the converted text.

use vstd::prelude::*;

use crate::merge::{merge_chars, merged};
use crate::punct::{convert, has_mapped, is_mapped, str_tokens, Convert, Token};

verus! {

/// The text a character sequence converts to when at least one of its
/// characters is recognized by the table.
pub open spec fn converted_text(s: Seq<char>) -> Seq<char> {
    merged(str_tokens(s))
}

/// The text a character sequence is left as after one conversion cycle:
/// the converted text when anything was recognized, the sequence itself
/// otherwise.
pub open spec fn rewritten_text(s: Seq<char>) -> Seq<char> {
    if has_mapped(s) {
        converted_text(s)
    } else {
        s
    }
}

/// Extending a sequence by one character extends `has_mapped` pointwise.
proof fn lemma_has_mapped_push(s: Seq<char>, c: char)
    ensures
        has_mapped(s.push(c)) == (has_mapped(s) || is_mapped(c)),
{
    if has_mapped(s) {
        let i = choose|i: int| 0 <= i < s.len() && is_mapped(s[i]);
        assert(s.push(c)[i] == s[i]);
    }
    if is_mapped(c) {
        assert(s.push(c)[s.len() as int] == c);
    }
    if has_mapped(s.push(c)) && !is_mapped(c) {
        let i = choose|i: int| 0 <= i < s.push(c).len() && is_mapped(s.push(c)[i]);
        assert(i < s.len());
        assert(s[i] == s.push(c)[i]);
    }
}

/// Converts a string, or reports it unchanged: maps each character, folds
/// the outcomes left to right, and returns the merged text exactly when
/// some character was substituted. `None` means the caller must leave the
/// original untouched; the empty string always yields `None`.
pub fn convert_str(input: &str) -> (r: Option<String>)
    ensures
        r is Some <==> has_mapped(input@),
        r matches Some(out) ==> out@ == converted_text(input@),
{
    let n = input.unicode_len();
    let mut toks: Vec<Token> = Vec::new();
    let mut any: bool = false;
    let mut i: usize = 0;
    proof {
        assert(input@.take(0) =~= Seq::<char>::empty());
    }
    while i < n
        invariant
            n == input@.len(),
            i <= n,
            toks@ == str_tokens(input@.take(i as int)),
            any == has_mapped(input@.take(i as int)),
        decreases n - i,
    {
        let ch = input.get_char(i);
        proof {
            let pre = input@.take(i as int);
            assert(input@.take(i as int + 1) =~= pre.push(input@[i as int]));
            assert(input@.take(i as int + 1).drop_last() =~= pre);
            lemma_has_mapped_push(pre, input@[i as int]);
        }
        match convert(ch) {
            Convert::Converted(mut v) => {
                toks.append(&mut v);
                any = true;
            },
            Convert::Raw(mut v) => {
                toks.append(&mut v);
            },
        }
        i = i + 1;
    }
    proof {
        assert(input@.take(n as int) =~= input@);
    }
    if !any {
        return None;
    }
    Some(merge_chars(&toks))
}

} // verus!
