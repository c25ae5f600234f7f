//! Tokens of the script language, the errors of reading it, and their models.

use vstd::prelude::*;

verus! {

/// One lexical unit of a script.
#[derive(PartialEq, Debug)]
pub enum Token {
    /// A maximal run of alphanumeric characters and underscores.
    Ident(String),
    /// A single punctuation character such as `{`, `}` or `=`.
    Symbol(char),
    /// The text between two double quotes, taken verbatim.
    StringLiteral(String),
    /// A signed decimal integer.
    NumericLiteral(i64),
}

/// The mathematical content of a [`Token`].
pub enum TokenView {
    Ident(Seq<char>),
    Symbol(char),
    StringLiteral(Seq<char>),
    NumericLiteral(i64),
}

impl View for Token {
    type V = TokenView;

    open spec fn view(&self) -> TokenView {
        match *self {
            Token::Ident(name) => TokenView::Ident(name@),
            Token::Symbol(c) => TokenView::Symbol(c),
            Token::StringLiteral(text) => TokenView::StringLiteral(text@),
            Token::NumericLiteral(value) => TokenView::NumericLiteral(value),
        }
    }
}

impl Clone for Token {
    fn clone(&self) -> (copy: Token)
        ensures
            copy@ == self@,
    {
        match self {
            Token::Ident(name) => Token::Ident(name.clone()),
            Token::Symbol(c) => Token::Symbol(*c),
            Token::StringLiteral(text) => Token::StringLiteral(text.clone()),
            Token::NumericLiteral(value) => Token::NumericLiteral(*value),
        }
    }
}

/// What a reading operation was looking for when it failed.
#[derive(PartialEq, Debug)]
pub enum Expected {
    /// The identifier with exactly this text.
    Ident(String),
    /// Exactly this symbol.
    Symbol(char),
    /// Any string literal.
    StringLiteral,
    /// Any integer literal.
    IntegerLiteral,
}

/// The mathematical content of an [`Expected`].
pub enum ExpectedView {
    Ident(Seq<char>),
    Symbol(char),
    StringLiteral,
    IntegerLiteral,
}

impl View for Expected {
    type V = ExpectedView;

    open spec fn view(&self) -> ExpectedView {
        match *self {
            Expected::Ident(name) => ExpectedView::Ident(name@),
            Expected::Symbol(c) => ExpectedView::Symbol(c),
            Expected::StringLiteral => ExpectedView::StringLiteral,
            Expected::IntegerLiteral => ExpectedView::IntegerLiteral,
        }
    }
}

impl Clone for Expected {
    fn clone(&self) -> (copy: Expected)
        ensures
            copy@ == self@,
    {
        match self {
            Expected::Ident(name) => Expected::Ident(name.clone()),
            Expected::Symbol(c) => Expected::Symbol(*c),
            Expected::StringLiteral => Expected::StringLiteral,
            Expected::IntegerLiteral => Expected::IntegerLiteral,
        }
    }
}

/// Why a script could not be read. The first error ends the reading.
///
/// Every variant carries the 1-based line number that the diagnostic refers to.
#[derive(PartialEq, Debug)]
pub enum ParseError {
    /// Lexical: a string literal was opened on `line` and never closed.
    UnterminatedString { line: usize },
    /// Lexical: the digits that start on `line` are not a 64-bit signed integer.
    MalformedNumber { line: usize },
    /// Syntax: a specific token was required; `found` is `None` at end of input.
    UnexpectedToken { expected: Expected, found: Option<Token>, line: usize },
    /// Syntax: the input ended inside a block.
    UnexpectedEof { line: usize },
    /// Syntax: a `Lump` was opened while another one was still open.
    NestedLump { line: usize },
    /// Syntax: `token` is no directive, block entry or block end.
    UnknownToken { token: Token, line: usize },
    /// Limit: the named chunks no longer fit the 32-bit chunk index space.
    TooManyChunks { line: usize },
}

/// The mathematical content of a [`ParseError`].
pub enum ParseErrorView {
    UnterminatedString { line: usize },
    MalformedNumber { line: usize },
    UnexpectedToken { expected: ExpectedView, found: Option<TokenView>, line: usize },
    UnexpectedEof { line: usize },
    NestedLump { line: usize },
    UnknownToken { token: TokenView, line: usize },
    TooManyChunks { line: usize },
}

impl View for ParseError {
    type V = ParseErrorView;

    open spec fn view(&self) -> ParseErrorView {
        match *self {
            ParseError::UnterminatedString { line } => ParseErrorView::UnterminatedString { line },
            ParseError::MalformedNumber { line } => ParseErrorView::MalformedNumber { line },
            ParseError::UnexpectedToken { expected, found, line } => ParseErrorView::UnexpectedToken {
                expected: expected@,
                found: match found {
                    Some(token) => Some(token@),
                    None => None,
                },
                line,
            },
            ParseError::UnexpectedEof { line } => ParseErrorView::UnexpectedEof { line },
            ParseError::NestedLump { line } => ParseErrorView::NestedLump { line },
            ParseError::UnknownToken { token, line } => ParseErrorView::UnknownToken {
                token: token@,
                line,
            },
            ParseError::TooManyChunks { line } => ParseErrorView::TooManyChunks { line },
        }
    }
}

impl Clone for ParseError {
    fn clone(&self) -> (copy: ParseError)
        ensures
            copy@ == self@,
    {
        match self {
            ParseError::UnterminatedString { line } => ParseError::UnterminatedString {
                line: *line,
            },
            ParseError::MalformedNumber { line } => ParseError::MalformedNumber { line: *line },
            ParseError::UnexpectedToken { expected, found, line } => ParseError::UnexpectedToken {
                expected: expected.clone(),
                found: match found {
                    Some(token) => Some(token.clone()),
                    None => None,
                },
                line: *line,
            },
            ParseError::UnexpectedEof { line } => ParseError::UnexpectedEof { line: *line },
            ParseError::NestedLump { line } => ParseError::NestedLump { line: *line },
            ParseError::UnknownToken { token, line } => ParseError::UnknownToken {
                token: token.clone(),
                line: *line,
            },
            ParseError::TooManyChunks { line } => ParseError::TooManyChunks { line: *line },
        }
    }
}

impl ParseErrorView {
    /// The line that the error refers to.
    pub open spec fn line(self) -> usize {
        match self {
            ParseErrorView::UnterminatedString { line } => line,
            ParseErrorView::MalformedNumber { line } => line,
            ParseErrorView::UnexpectedToken { line, .. } => line,
            ParseErrorView::UnexpectedEof { line } => line,
            ParseErrorView::NestedLump { line } => line,
            ParseErrorView::UnknownToken { line, .. } => line,
            ParseErrorView::TooManyChunks { line } => line,
        }
    }

    /// Lexical errors come from the characters of one token.
    pub open spec fn is_lexical(self) -> bool {
        self is UnterminatedString || self is MalformedNumber
    }

    /// Syntax errors come from a token that does not fit the grammar.
    pub open spec fn is_syntax(self) -> bool {
        self is UnexpectedToken || self is UnexpectedEof || self is NestedLump
            || self is UnknownToken
    }
}

impl ParseError {
    /// The 1-based line that the error refers to.
    pub fn line(&self) -> (line: usize)
        ensures
            line == self@.line(),
    {
        match self {
            ParseError::UnterminatedString { line } => *line,
            ParseError::MalformedNumber { line } => *line,
            ParseError::UnexpectedToken { line, .. } => *line,
            ParseError::UnexpectedEof { line } => *line,
            ParseError::NestedLump { line } => *line,
            ParseError::UnknownToken { line, .. } => *line,
            ParseError::TooManyChunks { line } => *line,
        }
    }

    /// Whether the error is lexical.
    pub fn is_lexical(&self) -> (b: bool)
        ensures
            b == self@.is_lexical(),
    {
        match self {
            ParseError::UnterminatedString { .. } => true,
            ParseError::MalformedNumber { .. } => true,
            _ => false,
        }
    }

    /// Whether the error is a syntax error.
    pub fn is_syntax(&self) -> (b: bool)
        ensures
            b == self@.is_syntax(),
    {
        match self {
            ParseError::UnexpectedToken { .. } => true,
            ParseError::UnexpectedEof { .. } => true,
            ParseError::NestedLump { .. } => true,
            ParseError::UnknownToken { .. } => true,
            _ => false,
        }
    }
}

} // verus!
