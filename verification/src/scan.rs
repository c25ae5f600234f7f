//! The lexical grammar of scripts, as functions on a sequence of characters.
//!
//! Which characters count as whitespace, as numeric and as alphanumeric is
//! Unicode's matter, not this grammar's. The grammar therefore reads glyphs:
//! characters that carry their classes with them. It is defined for every
//! classification; [`glyphs_of`] is the one that the standard library gives.
//!
//! A position is an index into the text, counted in characters. [`scan`] says
//! which token starts at or after a position and where the lexer stands after
//! reading it; the executable lexer is proved to compute exactly that.

use vstd::prelude::*;
use crate::token::{ExpectedView, ParseErrorView, TokenView};
use crate::unicode::{is_alphanumeric, is_numeric, is_whitespace};

verus! {

/// A character of a script together with the Unicode classes that it is in.
#[derive(Clone, Copy, Debug, PartialEq, Eq, Structural)]
pub struct Glyph {
    pub c: char,
    /// Whether the character is whitespace.
    pub whitespace: bool,
    /// Whether the character is numeric.
    pub numeric: bool,
    /// Whether the character is alphabetic or numeric.
    pub alphanumeric: bool,
}

/// The character `c` with the classes that Unicode puts it in.
pub open spec fn glyph_of(c: char) -> Glyph {
    Glyph {
        c,
        whitespace: is_whitespace(c),
        numeric: is_numeric(c),
        alphanumeric: is_alphanumeric(c),
    }
}

/// The characters of `text` with the classes that Unicode puts them in.
pub open spec fn glyphs_of(text: Seq<char>) -> Seq<Glyph> {
    Seq::new(text.len(), |i: int| glyph_of(text[i]))
}

/// The characters of a sequence of glyphs.
pub open spec fn chars_of(glyphs: Seq<Glyph>) -> Seq<char> {
    Seq::new(glyphs.len(), |i: int| glyphs[i].c)
}

/// The sets of characters that the lexer reads in runs.
#[derive(Clone, Copy, Debug)]
pub enum CharClass {
    /// Unicode whitespace.
    Whitespace,
    /// Unicode numeric characters, the body of an integer literal.
    Numeric,
    /// Alphanumeric characters and `_`, the body of an identifier.
    IdentChar,
    /// Everything but the line feed, the body of a comment.
    NotNewline,
    /// Everything but the double quote, the body of a string literal.
    NotQuote,
}

impl CharClass {
    /// Whether the glyph belongs to the class.
    pub open spec fn holds(self, glyph: Glyph) -> bool {
        match self {
            CharClass::Whitespace => glyph.whitespace,
            CharClass::Numeric => glyph.numeric,
            CharClass::IdentChar => glyph.alphanumeric || glyph.c == '_',
            CharClass::NotNewline => glyph.c != '\n',
            CharClass::NotQuote => glyph.c != '"',
        }
    }
}

/// The first position at or after `pos` whose character is outside `class`,
/// or the end of the text when the run reaches it.
pub open spec fn skip_while(text: Seq<Glyph>, pos: int, class: CharClass) -> int
    decreases text.len() - pos,
{
    if 0 <= pos < text.len() && class.holds(text[pos]) {
        skip_while(text, pos + 1, class)
    } else {
        pos
    }
}

/// The position just behind the line that `pos` lies in: behind the next line
/// feed, or the end of the text when there is none.
pub open spec fn line_end(text: Seq<Glyph>, pos: int) -> int {
    let feed = skip_while(text, pos, CharClass::NotNewline);
    if feed < text.len() {
        feed + 1
    } else {
        feed
    }
}

/// Where the next token starts: the first position at or after `pos` that is
/// neither whitespace nor inside a `#` comment.
pub open spec fn token_start(text: Seq<Glyph>, pos: int) -> int
    decreases text.len() - pos,
{
    let p = skip_while(text, pos, CharClass::Whitespace);
    if 0 <= p < text.len() && text[p].c == '#' {
        proof {
            lemma_skip_while_run(text, pos, CharClass::Whitespace);
            lemma_skip_while_run(text, p + 1, CharClass::NotNewline);
        }
        token_start(text, line_end(text, p))
    } else {
        p
    }
}

/// The number of line feeds among the first `pos` characters.
pub open spec fn newlines_before(text: Seq<Glyph>, pos: int) -> nat
    decreases pos,
{
    if pos <= 0 {
        0
    } else {
        newlines_before(text, pos - 1) + if pos <= text.len() && text[pos - 1].c == '\n' {
            1nat
        } else {
            0nat
        }
    }
}

/// The 1-based line that position `pos` lies on: one more than the line feeds
/// before it. A count beyond `usize::MAX` is reported as `usize::MAX`.
pub open spec fn line_at(text: Seq<Glyph>, pos: int) -> usize {
    let line = 1 + newlines_before(text, pos);
    if line <= usize::MAX {
        line as usize
    } else {
        usize::MAX
    }
}

/// Whether `c` is one of the ten ASCII digits.
pub open spec fn is_digit(c: char) -> bool {
    '0' <= c && c <= '9'
}

/// The number that a sequence of ASCII digits denotes in base ten.
pub open spec fn digits_value(digits: Seq<char>) -> nat
    decreases digits.len(),
{
    if digits.len() == 0 {
        0
    } else {
        digits_value(digits.drop_last()) * 10 + (digits.last() as nat - '0' as nat) as nat
    }
}

/// Whether `digits` is a non-empty sequence of ASCII digits.
pub open spec fn is_digit_string(digits: Seq<char>) -> bool {
    digits.len() > 0 && forall|i: int| 0 <= i < digits.len() ==> is_digit(#[trigger] digits[i])
}

/// The value of an integer literal: an optional `-` and then ASCII digits whose
/// number fits 64 signed bits. Any other text has no value.
pub open spec fn int_literal_value(literal: Seq<char>) -> Option<i64> {
    let negative = literal.len() > 0 && literal[0] == '-';
    let digits = if negative {
        literal.drop_first()
    } else {
        literal
    };
    let value = if negative {
        -(digits_value(digits) as int)
    } else {
        digits_value(digits) as int
    };
    if is_digit_string(digits) && i64::MIN <= value <= i64::MAX {
        Some(value as i64)
    } else {
        None
    }
}

/// What one reading step finds, and the position that it leaves the lexer at.
pub struct Scan {
    /// The token, `None` at the end of the input, or the lexical error.
    pub outcome: Result<Option<TokenView>, ParseErrorView>,
    /// The position behind everything that the step consumed.
    pub end: int,
}

/// The token that starts exactly at `start`, a position inside the text that
/// holds neither whitespace nor the start of a comment.
pub open spec fn scan_token(text: Seq<Glyph>, start: int) -> Scan {
    let c = text[start].c;
    if c == '"' {
        let close = skip_while(text, start + 1, CharClass::NotQuote);
        if close < text.len() {
            Scan {
                outcome: Ok(
                    Some(TokenView::StringLiteral(chars_of(text.subrange(start + 1, close)))),
                ),
                end: close + 1,
            }
        } else {
            Scan {
                outcome: Err(ParseErrorView::UnterminatedString { line: line_at(text, start) }),
                end: close,
            }
        }
    } else if text[start].numeric || c == '-' {
        let end = skip_while(text, start + 1, CharClass::Numeric);
        Scan {
            outcome: match int_literal_value(chars_of(text.subrange(start, end))) {
                Some(value) => Ok(Some(TokenView::NumericLiteral(value))),
                None => Err(ParseErrorView::MalformedNumber { line: line_at(text, start) }),
            },
            end,
        }
    } else if !CharClass::IdentChar.holds(text[start]) {
        Scan { outcome: Ok(Some(TokenView::Symbol(c))), end: start + 1 }
    } else {
        let end = skip_while(text, start, CharClass::IdentChar);
        Scan { outcome: Ok(Some(TokenView::Ident(chars_of(text.subrange(start, end))))), end }
    }
}

/// One reading step from position `pos`: skip whitespace and comments, then
/// read one token, or report the end of the input.
pub open spec fn scan(text: Seq<Glyph>, pos: int) -> Scan {
    let start = token_start(text, pos);
    if 0 <= start < text.len() {
        scan_token(text, start)
    } else {
        Scan { outcome: Ok(None), end: start }
    }
}

/// Whether `token` is what a reading operation asked for.
pub open spec fn matches_expected(token: TokenView, expected: ExpectedView) -> bool {
    match expected {
        ExpectedView::Ident(name) => token == TokenView::Ident(name),
        ExpectedView::Symbol(c) => token == TokenView::Symbol(c),
        ExpectedView::StringLiteral => token is StringLiteral,
        ExpectedView::IntegerLiteral => token is NumericLiteral,
    }
}

/// Holds the outcome of a reading step against what was asked for: a lexical
/// error stays, a fitting token is handed on, and anything else, the end of
/// the input included, is an `UnexpectedToken` error that refers to `line`.
pub open spec fn expect(
    outcome: Result<Option<TokenView>, ParseErrorView>,
    expected: ExpectedView,
    line: usize,
) -> Result<TokenView, ParseErrorView> {
    match outcome {
        Err(error) => Err(error),
        Ok(found) => if found matches Some(token) && matches_expected(token, expected) {
            Ok(found->0)
        } else {
            Err(ParseErrorView::UnexpectedToken { expected, found, line })
        },
    }
}

/// A run ends inside the text or at its end, everything in it belongs to the
/// class, and the character that stops it does not.
pub proof fn lemma_skip_while_run(text: Seq<Glyph>, pos: int, class: CharClass)
    requires
        0 <= pos <= text.len(),
    ensures
        pos <= skip_while(text, pos, class) <= text.len(),
        forall|i: int| pos <= i < skip_while(text, pos, class) ==> class.holds(#[trigger] text[i]),
        skip_while(text, pos, class) < text.len() ==> !class.holds(
            text[skip_while(text, pos, class)],
        ),
    decreases text.len() - pos,
{
    if pos < text.len() && class.holds(text[pos]) {
        lemma_skip_while_run(text, pos + 1, class);
    }
}

/// The end of a run is the only position with these properties: a position
/// at or after `pos` whose character, if it has one, is outside the class,
/// while everything from `pos` up to it is inside.
pub proof fn lemma_skip_while_unique(text: Seq<Glyph>, pos: int, class: CharClass, end: int)
    requires
        0 <= pos <= end <= text.len(),
        forall|i: int| pos <= i < end ==> class.holds(#[trigger] text[i]),
        end < text.len() ==> !class.holds(text[end]),
    ensures
        skip_while(text, pos, class) == end,
    decreases end - pos,
{
    if pos < end {
        assert(class.holds(text[pos]));
        lemma_skip_while_unique(text, pos + 1, class, end);
    }
}

/// The start of a token lies at or after the position the search began at, and
/// it holds neither whitespace nor a `#`.
pub proof fn lemma_token_start(text: Seq<Glyph>, pos: int)
    requires
        0 <= pos <= text.len(),
    ensures
        pos <= token_start(text, pos) <= text.len(),
        token_start(text, pos) < text.len() ==> !text[token_start(text, pos)].whitespace
            && text[token_start(text, pos)].c != '#',
    decreases text.len() - pos,
{
    let p = skip_while(text, pos, CharClass::Whitespace);
    lemma_skip_while_run(text, pos, CharClass::Whitespace);
    if p < text.len() && text[p].c == '#' {
        lemma_skip_while_run(text, p + 1, CharClass::NotNewline);
        lemma_token_start(text, line_end(text, p));
    }
}

/// Reading never moves backwards and never leaves the text; a step that finds
/// a token consumes at least one character.
pub proof fn lemma_scan_advances(text: Seq<Glyph>, pos: int)
    requires
        0 <= pos <= text.len(),
    ensures
        pos <= scan(text, pos).end <= text.len(),
        scan(text, pos).outcome matches Ok(Some(_)) ==> pos < scan(text, pos).end,
{
    let start = token_start(text, pos);
    lemma_token_start(text, pos);
    if start < text.len() {
        lemma_skip_while_run(text, start + 1, CharClass::NotQuote);
        lemma_skip_while_run(text, start + 1, CharClass::Numeric);
        lemma_skip_while_run(text, start, CharClass::IdentChar);
    }
}

/// Classifying a text keeps its characters.
pub proof fn lemma_glyphs_keep_chars(text: Seq<char>)
    ensures
        chars_of(glyphs_of(text)) == text,
{
    assert(chars_of(glyphs_of(text)) =~= text);
}

/// What the tokens look like. An identifier is a non-empty run of identifier
/// characters that ends where the run ends. A string literal is what stands
/// between a double quote and the next one, so it holds no double quote. A
/// symbol is the one character at the start of the token.
pub proof fn lemma_token_shapes(text: Seq<Glyph>, start: int)
    requires
        0 <= start < text.len(),
    ensures
        ({
            let step = scan_token(text, start);
            match step.outcome {
                Ok(Some(TokenView::Ident(name))) => {
                    &&& start < step.end <= text.len()
                    &&& name == chars_of(text.subrange(start, step.end))
                    &&& forall|i: int|
                        start <= i < step.end ==> CharClass::IdentChar.holds(#[trigger] text[i])
                    &&& step.end < text.len() ==> !CharClass::IdentChar.holds(text[step.end])
                },
                Ok(Some(TokenView::StringLiteral(content))) => {
                    &&& start + 2 <= step.end <= text.len()
                    &&& text[start].c == '"'
                    &&& text[step.end - 1].c == '"'
                    &&& content == chars_of(text.subrange(start + 1, step.end - 1))
                    &&& forall|i: int| 0 <= i < content.len() ==> #[trigger] content[i] != '"'
                },
                Ok(Some(TokenView::Symbol(c))) => {
                    &&& step.end == start + 1
                    &&& c == text[start].c
                    &&& !CharClass::IdentChar.holds(text[start])
                },
                Ok(Some(TokenView::NumericLiteral(value))) => {
                    &&& start < step.end <= text.len()
                    &&& int_literal_value(chars_of(text.subrange(start, step.end))) == Some(value)
                },
                Ok(None) => false,
                Err(ParseErrorView::UnterminatedString { line }) => {
                    &&& text[start].c == '"'
                    &&& step.end == text.len()
                    &&& line == line_at(text, start)
                    &&& forall|i: int| start < i < text.len() ==> (#[trigger] text[i]).c != '"'
                },
                Err(ParseErrorView::MalformedNumber { line }) => {
                    &&& line == line_at(text, start)
                    &&& int_literal_value(chars_of(text.subrange(start, step.end))) is None
                },
                Err(_) => false,
            }
        }),
{
    lemma_skip_while_run(text, start + 1, CharClass::NotQuote);
    lemma_skip_while_run(text, start + 1, CharClass::Numeric);
    lemma_skip_while_run(text, start, CharClass::IdentChar);
}

/// Line numbers count line feeds, so they never decrease along the text.
pub proof fn lemma_line_at_monotonic(text: Seq<Glyph>, from: int, to: int)
    requires
        from <= to,
    ensures
        newlines_before(text, from) <= newlines_before(text, to),
        line_at(text, from) <= line_at(text, to),
    decreases to - from,
{
    if from < to {
        lemma_line_at_monotonic(text, from, to - 1);
    }
}

} // verus!
