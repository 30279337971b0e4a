//! The character mapper: one Unicode scalar value in, a conversion outcome
//! out. A fixed table recognizes sixteen full-width punctuation code points
//! and replaces each with half-width literals flanked by spacing markers;
//! every other code point passes through unchanged.

use vstd::prelude::*;

verus! {

/// One token of a conversion rule: either a literal output character or a
/// spacing marker. A marker is a candidate word boundary; the merge step
/// decides whether it becomes a single space or nothing. The marker is its
/// own variant, not a reserved character, so no input byte can collide
/// with it.
#[derive(Clone, Copy, PartialEq, Eq, Structural, Debug)]
pub enum Token {
    Marker,
    Lit(char),
}

/// Outcome of mapping characters: `Converted` records that at least one
/// character was substituted by the table, `Raw` that none was. Combining
/// any `Converted` with anything yields `Converted`; only `Raw` with `Raw`
/// stays `Raw`.
pub enum Convert {
    Converted(Vec<Token>),
    Raw(Vec<Token>),
}

/// The code points the conversion table recognizes.
pub open spec fn is_mapped(c: char) -> bool {
    ||| c == '\u{300b}'
    ||| c == '\u{300a}'
    ||| c == '\u{ff1a}'
    ||| c == '\u{ff1b}'
    ||| c == '\u{201c}'
    ||| c == '\u{201d}'
    ||| c == '\u{ff01}'
    ||| c == '\u{2026}'
    ||| c == '\u{ff08}'
    ||| c == '\u{ff09}'
    ||| c == '\u{3010}'
    ||| c == '\u{3011}'
    ||| c == '\u{3001}'
    ||| c == '\u{3002}'
    ||| c == '\u{ff0c}'
    ||| c == '\u{ff1f}'
}

/// The conversion table: the token list substituted for a recognized code
/// point. Each literal keeps its typographic position; markers flank it so
/// the merge step can decide independently whether a space belongs before
/// and after.
pub open spec fn mapped_tokens(c: char) -> Seq<Token> {
    if c == '\u{300b}' {
        seq![Token::Marker, Token::Lit('>'), Token::Marker]
    } else if c == '\u{300a}' {
        seq![Token::Marker, Token::Lit('<'), Token::Marker, Token::Marker]
    } else if c == '\u{ff1a}' {
        seq![Token::Marker, Token::Marker, Token::Lit(':'), Token::Marker]
    } else if c == '\u{ff1b}' {
        seq![Token::Marker, Token::Marker, Token::Lit(';'), Token::Marker]
    } else if c == '\u{201c}' {
        seq![Token::Marker, Token::Lit('"'), Token::Marker, Token::Marker]
    } else if c == '\u{201d}' {
        seq![Token::Marker, Token::Marker, Token::Lit('"'), Token::Marker]
    } else if c == '\u{ff01}' {
        seq![Token::Marker, Token::Marker, Token::Lit('!'), Token::Marker]
    } else if c == '\u{2026}' {
        seq![
            Token::Marker,
            Token::Marker,
            Token::Lit('.'),
            Token::Lit('.'),
            Token::Lit('.'),
            Token::Marker,
            Token::Marker,
        ]
    } else if c == '\u{ff08}' {
        seq![Token::Marker, Token::Lit('('), Token::Marker, Token::Marker]
    } else if c == '\u{ff09}' {
        seq![Token::Marker, Token::Marker, Token::Lit(')'), Token::Marker]
    } else if c == '\u{3010}' {
        seq![Token::Marker, Token::Lit('['), Token::Marker, Token::Marker]
    } else if c == '\u{3011}' {
        seq![Token::Marker, Token::Marker, Token::Lit(']'), Token::Marker]
    } else if c == '\u{3001}' {
        seq![Token::Marker, Token::Marker, Token::Lit(','), Token::Marker]
    } else if c == '\u{3002}' {
        seq![Token::Marker, Token::Marker, Token::Lit('.'), Token::Marker]
    } else if c == '\u{ff0c}' {
        seq![Token::Marker, Token::Marker, Token::Lit(','), Token::Marker]
    } else {
        seq![Token::Marker, Token::Marker, Token::Lit('?'), Token::Marker]
    }
}

/// Tokens produced for any code point: the table entry when the point is
/// recognized, the character itself otherwise.
pub open spec fn char_tokens(c: char) -> Seq<Token> {
    if is_mapped(c) {
        mapped_tokens(c)
    } else {
        seq![Token::Lit(c)]
    }
}

/// Tokens produced for a whole character sequence, in order.
pub open spec fn str_tokens(s: Seq<char>) -> Seq<Token>
    decreases s.len(),
{
    if s.len() == 0 {
        Seq::empty()
    } else {
        str_tokens(s.drop_last()) + char_tokens(s.last())
    }
}

/// Whether any character of the sequence is recognized by the table.
pub open spec fn has_mapped(s: Seq<char>) -> bool {
    exists|i: int| 0 <= i < s.len() && is_mapped(s[i])
}

/// Builds the token list `[Marker, Lit(lit), Marker]`.
fn toks_single(lit: char) -> (v: Vec<Token>)
    ensures
        v@ == seq![Token::Marker, Token::Lit(lit), Token::Marker],
{
    let mut v: Vec<Token> = Vec::new();
    v.push(Token::Marker);
    v.push(Token::Lit(lit));
    v.push(Token::Marker);
    proof {
        assert(v@ =~= seq![Token::Marker, Token::Lit(lit), Token::Marker]);
    }
    v
}

/// Builds the token list `[Marker, Lit(lit), Marker, Marker]`.
fn toks_opening(lit: char) -> (v: Vec<Token>)
    ensures
        v@ == seq![Token::Marker, Token::Lit(lit), Token::Marker, Token::Marker],
{
    let mut v: Vec<Token> = Vec::new();
    v.push(Token::Marker);
    v.push(Token::Lit(lit));
    v.push(Token::Marker);
    v.push(Token::Marker);
    proof {
        assert(v@ =~= seq![Token::Marker, Token::Lit(lit), Token::Marker, Token::Marker]);
    }
    v
}

/// Builds the token list `[Marker, Marker, Lit(lit), Marker]`.
fn toks_closing(lit: char) -> (v: Vec<Token>)
    ensures
        v@ == seq![Token::Marker, Token::Marker, Token::Lit(lit), Token::Marker],
{
    let mut v: Vec<Token> = Vec::new();
    v.push(Token::Marker);
    v.push(Token::Marker);
    v.push(Token::Lit(lit));
    v.push(Token::Marker);
    proof {
        assert(v@ =~= seq![Token::Marker, Token::Marker, Token::Lit(lit), Token::Marker]);
    }
    v
}

/// Builds the token list for the ellipsis: three dots with two markers on
/// each side.
fn toks_ellipsis() -> (v: Vec<Token>)
    ensures
        v@ == mapped_tokens('\u{2026}'),
{
    let mut v: Vec<Token> = Vec::new();
    v.push(Token::Marker);
    v.push(Token::Marker);
    v.push(Token::Lit('.'));
    v.push(Token::Lit('.'));
    v.push(Token::Lit('.'));
    v.push(Token::Marker);
    v.push(Token::Marker);
    proof {
        assert(v@ =~= mapped_tokens('\u{2026}'));
    }
    v
}

/// The character mapper: total over all code points, no error case. A
/// recognized code point yields `Converted` with its table entry; any
/// other yields `Raw` with the character itself.
pub fn convert(ch: char) -> (r: Convert)
    ensures
        match r {
            Convert::Converted(v) => is_mapped(ch) && v@ == char_tokens(ch),
            Convert::Raw(v) => !is_mapped(ch) && v@ == char_tokens(ch),
        },
{
    match ch {
        '\u{300b}' => Convert::Converted(toks_single('>')),
        '\u{300a}' => Convert::Converted(toks_opening('<')),
        '\u{ff1a}' => Convert::Converted(toks_closing(':')),
        '\u{ff1b}' => Convert::Converted(toks_closing(';')),
        '\u{201c}' => Convert::Converted(toks_opening('"')),
        '\u{201d}' => Convert::Converted(toks_closing('"')),
        '\u{ff01}' => Convert::Converted(toks_closing('!')),
        '\u{2026}' => Convert::Converted(toks_ellipsis()),
        '\u{ff08}' => Convert::Converted(toks_opening('(')),
        '\u{ff09}' => Convert::Converted(toks_closing(')')),
        '\u{3010}' => Convert::Converted(toks_opening('[')),
        '\u{3011}' => Convert::Converted(toks_closing(']')),
        '\u{3001}' => Convert::Converted(toks_closing(',')),
        '\u{3002}' => Convert::Converted(toks_closing('.')),
        '\u{ff0c}' => Convert::Converted(toks_closing(',')),
        '\u{ff1f}' => Convert::Converted(toks_closing('?')),
        _ => {
            let mut v: Vec<Token> = Vec::new();
            v.push(Token::Lit(ch));
            proof {
                assert(v@ =~= seq![Token::Lit(ch)]);
            }
            Convert::Raw(v)
        },
    }
}

} // verus!
