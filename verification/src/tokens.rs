//! The tokens that the attribute parsers read: what a token stream holds,
//! as plain data.

use vstd::prelude::*;
use crate::models::{ConfigError, ConfigErrorKind};
use crate::text::char_text;

verus! {

/// How a group of tokens is delimited.
#[derive(Clone, Copy, Debug, PartialEq, Eq, Structural)]
pub enum Delimiter {
    Parenthesis,
    Brace,
    Bracket,
    Invisible,
}

/// A word.
pub struct Ident {
    pub name: String,
    pub span: proc_macro2::Span,
}

/// A delimited stream of tokens.
pub struct Group {
    pub delimiter: Delimiter,
    pub stream: Vec<Token>,
    pub span: proc_macro2::Span,
}

/// A single punctuation character.
pub struct Punct {
    pub ch: char,
    pub span: proc_macro2::Span,
}

/// A literal, as it was written.
pub struct Literal {
    pub text: String,
    pub span: proc_macro2::Span,
}

/// One token, or a delimited stream of them.
pub enum Token {
    Group(Group),
    Ident(Ident),
    Punct(Punct),
    Literal(Literal),
}

impl Token {
    pub open spec fn spec_span(&self) -> proc_macro2::Span {
        match self {
            Token::Group(group) => group.span,
            Token::Ident(ident) => ident.span,
            Token::Punct(punct) => punct.span,
            Token::Literal(literal) => literal.span,
        }
    }

    /// The place the token was written at.
    #[verifier::when_used_as_spec(spec_span)]
    pub fn span(&self) -> (span: proc_macro2::Span)
        ensures
            span == self.spec_span(),
    {
        match self {
            Token::Group(group) => group.span,
            Token::Ident(ident) => ident.span,
            Token::Punct(punct) => punct.span,
            Token::Literal(literal) => literal.span,
        }
    }

    /// The token as a reader sees it in a diagnostic: a word, a literal and
    /// a punctuation character by their text, a group by its delimiters
    /// around an ellipsis, its content left out.
    pub open spec fn spec_text(&self) -> Seq<char> {
        match self {
            Token::Ident(ident) => ident.name@,
            Token::Literal(literal) => literal.text@,
            Token::Punct(punct) => seq![punct.ch],
            Token::Group(group) => match group.delimiter {
                Delimiter::Parenthesis => "(...)"@,
                Delimiter::Brace => "{...}"@,
                Delimiter::Bracket => "[...]"@,
                Delimiter::Invisible => "..."@,
            },
        }
    }

    /// The token as a reader sees it in a diagnostic.
    pub fn text(&self) -> (text: String)
        ensures
            text@ == self.spec_text(),
    {
        match self {
            Token::Ident(ident) => ident.name.clone(),
            Token::Literal(literal) => literal.text.clone(),
            Token::Punct(punct) => char_text(punct.ch),
            Token::Group(group) => match group.delimiter {
                Delimiter::Parenthesis => String::from_str("(...)"),
                Delimiter::Brace => String::from_str("{...}"),
                Delimiter::Bracket => String::from_str("[...]"),
                Delimiter::Invisible => String::from_str("..."),
            },
        }
    }

    /// Whether the token is the punctuation character `ch`.
    pub open spec fn is_punct(&self, ch: char) -> bool {
        match self {
            Token::Punct(punct) => punct.ch == ch,
            _ => false,
        }
    }
}

/// What a diagnostic must say: its kind, its text, and its place, where it
/// has one of its own. A diagnostic without a place of its own points at the
/// macro's invocation.
pub ghost struct Failure {
    pub kind: ConfigErrorKind,
    pub span: Option<proc_macro2::Span>,
    pub message: Seq<char>,
}

/// The diagnostic says what the failure calls for.
pub open spec fn reports(error: ConfigError, failure: Failure) -> bool {
    &&& error.kind == failure.kind
    &&& error.message@ == failure.message
    &&& failure.span matches Some(span) ==> error.span == span
}

/// A syntax failure at `span`.
pub open spec fn syntax_failure(span: proc_macro2::Span, message: Seq<char>) -> Failure {
    Failure { kind: ConfigErrorKind::Syntax, span: Some(span), message }
}

/// Builds the diagnostic of a syntax failure.
pub fn syntax_error(span: proc_macro2::Span, message: &str) -> (error: ConfigError)
    ensures
        reports(error, syntax_failure(span, message@)),
{
    ConfigError { kind: ConfigErrorKind::Syntax, span, message: String::from_str(message) }
}

/// Whether the token is a comma.
pub fn is_comma(token: &Token) -> (comma: bool)
    ensures
        comma == token.is_punct(','),
{
    match token {
        Token::Punct(punct) => punct.ch == ',',
        _ => false,
    }
}

/// Whether the token is an equals sign.
pub fn is_eq(token: &Token) -> (eq: bool)
    ensures
        eq == token.is_punct('='),
{
    match token {
        Token::Punct(punct) => punct.ch == '=',
        _ => false,
    }
}

/// The word that the token is, or a diagnostic at the token.
pub fn try_unwrap_ident(token: &Token) -> (unwrapped: Result<&Ident, ConfigError>)
    ensures
        match unwrapped {
            Ok(ident) => *token == Token::Ident(*ident),
            Err(error) => !(token is Ident) && reports(
                error,
                syntax_failure(token.spec_span(), "#[nutype] expected ident"@),
            ),
        },
{
    match token {
        Token::Ident(ident) => Ok(ident),
        _ => Err(syntax_error(token.span(), "#[nutype] expected ident")),
    }
}

/// The group that the token is, or a diagnostic at the token.
pub fn try_unwrap_group(token: &Token) -> (unwrapped: Result<&Group, ConfigError>)
    ensures
        match unwrapped {
            Ok(group) => *token == Token::Group(*group),
            Err(error) => !(token is Group) && reports(
                error,
                syntax_failure(token.spec_span(), "#[nutype] expected group"@),
            ),
        },
{
    match token {
        Token::Group(group) => Ok(group),
        _ => Err(syntax_error(token.span(), "#[nutype] expected group")),
    }
}

} // verus!
