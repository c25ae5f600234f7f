//! The lexer: script text in, one token at a time out.

use vstd::prelude::*;
use crate::scan::{
    chars_of, digits_value, expect, glyph_of, glyphs_of, int_literal_value, is_digit,
    is_digit_string, lemma_line_at_monotonic, lemma_scan_advances, lemma_skip_while_run,
    lemma_token_start, line_at, scan, scan_token, skip_while, token_start, CharClass, Glyph,
};
use crate::text::str_eq;
use crate::token::{Expected, ExpectedView, ParseError, ParseErrorView, Token, TokenView};
use crate::unicode::{char_is_alphanumeric, char_is_numeric, char_is_whitespace, string_push};

verus! {

/// The mathematical state of a [`Lexer`].
pub struct LexerState {
    /// The whole script, every character with its classes.
    pub text: Seq<Glyph>,
    /// How many characters have been consumed.
    pub pos: int,
    /// The 1-based line that `pos` lies on.
    pub line: usize,
    /// The token that was pushed back, if any.
    pub buffered: Option<TokenView>,
}

impl LexerState {
    /// The position lies in the text and the line counter agrees with it.
    pub open spec fn well_formed(self) -> bool {
        &&& 0 <= self.pos <= self.text.len()
        &&& self.line == line_at(self.text, self.pos)
    }

    /// The state after the lexer has moved to `pos`.
    pub open spec fn at(self, pos: int) -> LexerState {
        LexerState { pos, line: line_at(self.text, pos), ..self }
    }

    /// What the next reading step returns: the token that was pushed back, if
    /// there is one, and else what [`scan`] finds at the current position.
    pub open spec fn next_outcome(self) -> Result<Option<TokenView>, ParseErrorView> {
        match self.buffered {
            Some(token) => Ok(Some(token)),
            None => scan(self.text, self.pos).outcome,
        }
    }

    /// The state that the next reading step leaves behind.
    pub open spec fn after_next(self) -> LexerState {
        match self.buffered {
            Some(_) => LexerState { buffered: None, ..self },
            None => self.at(scan(self.text, self.pos).end),
        }
    }
}

/// The cursor only moves forward: a reading step keeps the text, leaves the
/// position and the line where they are or behind, and stays inside the
/// text. A step that reads a token from the text consumes at least one
/// character; a step that returns a token that was pushed back consumes none.
pub proof fn lemma_next_moves_forward(state: LexerState)
    requires
        state.well_formed(),
    ensures
        state.after_next().well_formed(),
        state.after_next().text == state.text,
        state.pos <= state.after_next().pos,
        state.line <= state.after_next().line,
        state.after_next().buffered is None,
        state.buffered is Some ==> state.after_next().pos == state.pos,
        state.buffered is None && (state.next_outcome() matches Ok(Some(_))) ==> state.pos
            < state.after_next().pos,
{
    lemma_scan_advances(state.text, state.pos);
    lemma_line_at_monotonic(state.text, state.pos, state.after_next().pos);
}

/// The mathematical content of what [`Lexer::next_token`] returns.
pub open spec fn outcome_view(result: Result<Option<Token>, ParseError>) -> Result<
    Option<TokenView>,
    ParseErrorView,
> {
    match result {
        Ok(Some(token)) => Ok(Some(token@)),
        Ok(None) => Ok(None),
        Err(error) => Err(error@),
    }
}

/// A cursor over the characters of a script.
pub struct Lexer {
    glyphs: Vec<Glyph>,
    offset: usize,
    line: usize,
    buffered_token: Option<Token>,
}

impl View for Lexer {
    type V = LexerState;

    closed spec fn view(&self) -> LexerState {
        LexerState {
            text: self.glyphs@,
            pos: self.offset as int,
            line: self.line,
            buffered: match self.buffered_token {
                Some(token) => Some(token@),
                None => None,
            },
        }
    }
}

impl CharClass {
    /// Whether the glyph belongs to the class.
    pub fn contains(self, glyph: Glyph) -> (b: bool)
        ensures
            b == self.holds(glyph),
    {
        match self {
            CharClass::Whitespace => glyph.whitespace,
            CharClass::Numeric => glyph.numeric,
            CharClass::IdentChar => glyph.alphanumeric || glyph.c == '_',
            CharClass::NotNewline => glyph.c != '\n',
            CharClass::NotQuote => glyph.c != '"',
        }
    }
}

/// The character `c` with the classes that the standard library puts it in.
pub fn classify(c: char) -> (glyph: Glyph)
    ensures
        glyph == glyph_of(c),
{
    Glyph {
        c,
        whitespace: char_is_whitespace(c),
        numeric: char_is_numeric(c),
        alphanumeric: char_is_alphanumeric(c),
    }
}

/// The characters of `text` with the classes that the standard library puts
/// them in.
pub fn classify_text(text: &str) -> (glyphs: Vec<Glyph>)
    ensures
        glyphs@ == glyphs_of(text@),
{
    let mut glyphs: Vec<Glyph> = Vec::new();
    for c in it: text.chars()
        invariant
            it.seq() == text@,
            glyphs@.len() == it.index(),
            forall|k: int| 0 <= k < it.index() ==> glyphs@[k] == glyph_of(text@[k]),
    {
        glyphs.push(classify(c));
    }
    assert(glyphs@ =~= glyphs_of(text@));
    glyphs
}

/// The string made of the characters of `glyphs[from..to]`.
pub fn string_from_glyphs(glyphs: &Vec<Glyph>, from: usize, to: usize) -> (s: String)
    requires
        from <= to <= glyphs@.len(),
    ensures
        s@ == chars_of(glyphs@.subrange(from as int, to as int)),
{
    let mut s = String::new();
    let mut i: usize = from;
    assert(s@ =~= chars_of(glyphs@.subrange(from as int, i as int)));
    while i < to
        invariant
            from <= i <= to <= glyphs@.len(),
            s@ == chars_of(glyphs@.subrange(from as int, i as int)),
        decreases to - i,
    {
        string_push(&mut s, glyphs[i].c);
        i += 1;
        assert(s@ =~= chars_of(glyphs@.subrange(from as int, i as int)));
    }
    s
}

/// The value of the integer literal `glyphs[from..to]`, if it has one.
pub fn parse_int_literal(glyphs: &Vec<Glyph>, from: usize, to: usize) -> (value: Option<i64>)
    requires
        from <= to <= glyphs@.len(),
    ensures
        value == int_literal_value(chars_of(glyphs@.subrange(from as int, to as int))),
{
    let ghost chars = chars_of(glyphs@);
    let ghost literal = chars.subrange(from as int, to as int);
    assert(literal =~= chars_of(glyphs@.subrange(from as int, to as int)));
    let negative = from < to && glyphs[from].c == '-';
    let first: usize = if negative {
        from + 1
    } else {
        from
    };
    let ghost digits = chars.subrange(first as int, to as int);
    assert(digits =~= if negative {
        literal.drop_first()
    } else {
        literal
    });
    if first == to {
        return None;
    }
    let limit: u128 = 0x8000_0000_0000_0000;
    let mut magnitude: u128 = 0;
    let mut i: usize = first;
    while i < to
        invariant
            first <= i <= to <= glyphs@.len(),
            first < to,
            chars == chars_of(glyphs@),
            digits == chars.subrange(first as int, to as int),
            literal == chars.subrange(from as int, to as int),
            literal == chars_of(glyphs@.subrange(from as int, to as int)),
            negative == (literal.len() > 0 && literal[0] == '-'),
            digits == if negative {
                literal.drop_first()
            } else {
                literal
            },
            limit == 0x8000_0000_0000_0000,
            magnitude <= limit,
            magnitude == digits_value(digits.take(i - first)),
            forall|j: int| 0 <= j < i - first ==> is_digit(#[trigger] digits[j]),
        decreases to - i,
    {
        let c = glyphs[i].c;
        if !('0' <= c && c <= '9') {
            assert(!is_digit(digits[i - first]));
            return None;
        }
        let digit: u128 = (c as u32 - '0' as u32) as u128;
        assert(digits.take(i - first + 1).drop_last() =~= digits.take(i - first));
        magnitude = magnitude * 10 + digit;
        i += 1;
        if magnitude > limit {
            proof {
                if is_digit_string(digits) {
                    lemma_digits_value_prefix(digits, i - first);
                }
            }
            return None;
        }
    }
    assert(digits.take(i - first) =~= digits);
    if negative {
        Some((0 - magnitude as i128) as i64)
    } else if magnitude < limit {
        Some(magnitude as i64)
    } else {
        None
    }
}

/// Among digits, a longer string never denotes a smaller number than its prefix.
pub proof fn lemma_digits_value_prefix(digits: Seq<char>, len: int)
    requires
        0 <= len <= digits.len(),
        forall|i: int| 0 <= i < digits.len() ==> is_digit(#[trigger] digits[i]),
    ensures
        digits_value(digits.take(len)) <= digits_value(digits),
    decreases digits.len(),
{
    if len == digits.len() {
        assert(digits.take(len) =~= digits);
    } else {
        lemma_digits_value_prefix(digits.drop_last(), len);
        assert(digits.drop_last().take(len) =~= digits.take(len));
    }
}

impl Lexer {
    /// Whether the lexer's state is consistent.
    pub open spec fn wf(&self) -> bool {
        self@.well_formed()
    }

    /// A lexer at the start of `data`, on line 1, with nothing pushed back.
    /// The characters are classified as the standard library classifies them.
    pub fn from_str(data: &str) -> (lexer: Lexer)
        ensures
            lexer.wf(),
            lexer@ == (LexerState { text: glyphs_of(data@), pos: 0, line: 1, buffered: None }),
    {
        Lexer::from_glyphs(classify_text(data))
    }

    /// A lexer at the start of a text whose characters come with their
    /// classes, on line 1, with nothing pushed back.
    pub fn from_glyphs(glyphs: Vec<Glyph>) -> (lexer: Lexer)
        ensures
            lexer.wf(),
            lexer@ == (LexerState { text: glyphs@, pos: 0, line: 1, buffered: None }),
    {
        Lexer { glyphs, offset: 0, line: 1, buffered_token: None }
    }

    /// The line that the lexer has reached, counted from 1.
    pub fn line(&self) -> (line: usize)
        ensures
            line == self@.line,
    {
        self.line
    }

    /// Whether a token has been pushed back and not been read again.
    pub fn has_buffered_token(&self) -> (held: bool)
        ensures
            held == self@.buffered is Some,
    {
        self.buffered_token.is_some()
    }

    /// Pushes `token` back: the next reading step returns it and consumes no
    /// text. Only one token can be held at a time.
    pub fn unget_token(&mut self, token: Token)
        requires
            old(self)@.buffered is None,
        ensures
            final(self)@ == (LexerState { buffered: Some(token@), ..old(self)@ }),
    {
        self.buffered_token = Some(token);
    }

    fn peek_char(&self) -> (glyph: Option<Glyph>)
        requires
            self.wf(),
        ensures
            glyph == if self@.pos < self@.text.len() {
                Some(self@.text[self@.pos])
            } else {
                None
            },
    {
        if self.offset < self.glyphs.len() {
            Some(self.glyphs[self.offset])
        } else {
            None
        }
    }

    fn eat_char(&mut self)
        requires
            old(self).wf(),
            old(self)@.pos < old(self)@.text.len(),
        ensures
            final(self).wf(),
            final(self)@ == old(self)@.at(old(self)@.pos + 1),
    {
        assert(self.offset < self.glyphs.len());
        if self.glyphs[self.offset].c == '\n' && self.line < usize::MAX {
            self.line += 1;
        }
        self.offset += 1;
    }

    fn eat_while(&mut self, class: CharClass)
        requires
            old(self).wf(),
        ensures
            final(self).wf(),
            final(self)@ == old(self)@.at(skip_while(old(self)@.text, old(self)@.pos, class)),
    {
        loop
            invariant
                self.wf(),
                self@.text == old(self)@.text,
                self@.buffered == old(self)@.buffered,
                old(self)@.pos <= self@.pos,
                skip_while(self@.text, self@.pos, class) == skip_while(
                    old(self)@.text,
                    old(self)@.pos,
                    class,
                ),
            ensures
                self@.pos == skip_while(old(self)@.text, old(self)@.pos, class),
            decreases self@.text.len() - self@.pos,
        {
            match self.peek_char() {
                Some(glyph) => {
                    if !class.contains(glyph) {
                        break ;
                    }
                },
                None => {
                    break ;
                },
            }
            self.eat_char();
        }
    }

    fn eat_whitespace(&mut self)
        requires
            old(self).wf(),
        ensures
            final(self).wf(),
            final(self)@ == old(self)@.at(
                skip_while(old(self)@.text, old(self)@.pos, CharClass::Whitespace),
            ),
    {
        self.eat_while(CharClass::Whitespace)
    }

    /// Skips whitespace and comments up to the start of the next token.
    fn eat_blanks(&mut self)
        requires
            old(self).wf(),
        ensures
            final(self).wf(),
            final(self)@ == old(self)@.at(token_start(old(self)@.text, old(self)@.pos)),
    {
        loop
            invariant
                self.wf(),
                self@.text == old(self)@.text,
                self@.buffered == old(self)@.buffered,
                token_start(self@.text, self@.pos) == token_start(
                    old(self)@.text,
                    old(self)@.pos,
                ),
            ensures
                self@.pos == token_start(old(self)@.text, old(self)@.pos),
            decreases self@.text.len() - self@.pos,
        {
            let ghost before = self@.pos;
            self.eat_whitespace();
            proof {
                lemma_skip_while_run(self@.text, before, CharClass::Whitespace);
            }
            match self.peek_char() {
                Some(glyph) => {
                    if glyph.c != '#' {
                        break ;
                    }
                },
                None => {
                    break ;
                },
            }
            let ghost hash = self@.pos;
            proof {
                lemma_skip_while_run(self@.text, hash + 1, CharClass::NotNewline);
            }
            self.eat_while(CharClass::NotNewline);
            if self.peek_char().is_some() {
                self.eat_char();
            }
        }
    }

    /// Reads the token that starts at the current position.
    fn read_token(&mut self, first: Glyph) -> (result: Result<Option<Token>, ParseError>)
        requires
            old(self).wf(),
            old(self)@.pos < old(self)@.text.len(),
            first == old(self)@.text[old(self)@.pos],
        ensures
            final(self).wf(),
            final(self)@ == old(self)@.at(scan_token(old(self)@.text, old(self)@.pos).end),
            outcome_view(result) == scan_token(old(self)@.text, old(self)@.pos).outcome,
    {
        let start = self.offset;
        let line = self.line;
        let c = first.c;
        if c == '"' {
            self.eat_char();
            let open = self.offset;
            proof {
                lemma_skip_while_run(self@.text, open as int, CharClass::NotQuote);
            }
            self.eat_while(CharClass::NotQuote);
            if self.offset < self.glyphs.len() {
                let text = string_from_glyphs(&self.glyphs, open, self.offset);
                self.eat_char();
                Ok(Some(Token::StringLiteral(text)))
            } else {
                Err(ParseError::UnterminatedString { line })
            }
        } else if first.numeric || c == '-' {
            self.eat_char();
            proof {
                lemma_skip_while_run(self@.text, start + 1, CharClass::Numeric);
            }
            self.eat_while(CharClass::Numeric);
            match parse_int_literal(&self.glyphs, start, self.offset) {
                Some(value) => Ok(Some(Token::NumericLiteral(value))),
                None => Err(ParseError::MalformedNumber { line }),
            }
        } else if !CharClass::IdentChar.contains(first) {
            self.eat_char();
            Ok(Some(Token::Symbol(c)))
        } else {
            proof {
                lemma_skip_while_run(self@.text, start as int, CharClass::IdentChar);
            }
            self.eat_while(CharClass::IdentChar);
            let name = string_from_glyphs(&self.glyphs, start, self.offset);
            Ok(Some(Token::Ident(name)))
        }
    }

    /// Returns the next token, `None` at the end of the input.
    ///
    /// A token that was pushed back comes first. Otherwise whitespace and `#`
    /// comments are skipped and one token is read as [`scan`] describes. The
    /// line counter follows the line feeds that were consumed.
    pub fn next_token(&mut self) -> (result: Result<Option<Token>, ParseError>)
        requires
            old(self).wf(),
        ensures
            final(self).wf(),
            final(self)@ == old(self)@.after_next(),
            outcome_view(result) == old(self)@.next_outcome(),
    {
        match self.buffered_token.take() {
            Some(token) => {
                return Ok(Some(token));
            },
            None => {},
        }
        proof {
            lemma_token_start(self@.text, self@.pos);
        }
        self.eat_blanks();
        match self.peek_char() {
            Some(first) => self.read_token(first),
            None => Ok(None),
        }
    }

    /// Reads one token and requires it to be the identifier `ident`.
    pub fn expect_ident(&mut self, ident: &str) -> (result: Result<(), ParseError>)
        requires
            old(self).wf(),
        ensures
            final(self).wf(),
            final(self)@ == old(self)@.after_next(),
            match result {
                Ok(()) => expect(
                    old(self)@.next_outcome(),
                    ExpectedView::Ident(ident@),
                    old(self)@.line,
                ) is Ok,
                Err(error) => expect(
                    old(self)@.next_outcome(),
                    ExpectedView::Ident(ident@),
                    old(self)@.line,
                ) == Err::<TokenView, ParseErrorView>(error@),
            },
    {
        let line = self.line;
        let found = self.next_token()?;
        if let Some(Token::Ident(name)) = &found {
            if str_eq(name.as_str(), ident) {
                return Ok(());
            }
        }
        Err(ParseError::UnexpectedToken { expected: Expected::Ident(ident.to_owned()), found, line })
    }

    /// Reads one token and requires it to be the symbol `sym`.
    pub fn expect_symbol(&mut self, sym: char) -> (result: Result<(), ParseError>)
        requires
            old(self).wf(),
        ensures
            final(self).wf(),
            final(self)@ == old(self)@.after_next(),
            match result {
                Ok(()) => expect(
                    old(self)@.next_outcome(),
                    ExpectedView::Symbol(sym),
                    old(self)@.line,
                ) is Ok,
                Err(error) => expect(
                    old(self)@.next_outcome(),
                    ExpectedView::Symbol(sym),
                    old(self)@.line,
                ) == Err::<TokenView, ParseErrorView>(error@),
            },
    {
        let line = self.line;
        let found = self.next_token()?;
        if let Some(Token::Symbol(c)) = &found {
            if *c == sym {
                return Ok(());
            }
        }
        Err(ParseError::UnexpectedToken { expected: Expected::Symbol(sym), found, line })
    }

    /// Reads one token, requires it to be a string literal and returns its text.
    pub fn get_string_literal(&mut self) -> (result: Result<String, ParseError>)
        requires
            old(self).wf(),
        ensures
            final(self).wf(),
            final(self)@ == old(self)@.after_next(),
            match result {
                Ok(text) => expect(
                    old(self)@.next_outcome(),
                    ExpectedView::StringLiteral,
                    old(self)@.line,
                ) == Ok::<TokenView, ParseErrorView>(TokenView::StringLiteral(text@)),
                Err(error) => expect(
                    old(self)@.next_outcome(),
                    ExpectedView::StringLiteral,
                    old(self)@.line,
                ) == Err::<TokenView, ParseErrorView>(error@),
            },
    {
        let line = self.line;
        let found = self.next_token()?;
        match found {
            Some(Token::StringLiteral(text)) => Ok(text),
            other => Err(
                ParseError::UnexpectedToken { expected: Expected::StringLiteral, found: other, line },
            ),
        }
    }

    /// Reads one token, requires it to be an integer literal and returns its value.
    pub fn get_int_literal(&mut self) -> (result: Result<i64, ParseError>)
        requires
            old(self).wf(),
        ensures
            final(self).wf(),
            final(self)@ == old(self)@.after_next(),
            match result {
                Ok(value) => expect(
                    old(self)@.next_outcome(),
                    ExpectedView::IntegerLiteral,
                    old(self)@.line,
                ) == Ok::<TokenView, ParseErrorView>(TokenView::NumericLiteral(value)),
                Err(error) => expect(
                    old(self)@.next_outcome(),
                    ExpectedView::IntegerLiteral,
                    old(self)@.line,
                ) == Err::<TokenView, ParseErrorView>(error@),
            },
    {
        let line = self.line;
        let found = self.next_token()?;
        match found {
            Some(Token::NumericLiteral(value)) => Ok(value),
            other => Err(
                ParseError::UnexpectedToken { expected: Expected::IntegerLiteral, found: other, line },
            ),
        }
    }
}

} // verus!
