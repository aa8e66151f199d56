//! Reading the numbers that bound a wrapper's values.

use vstd::prelude::*;
use vstd::slice::slice_subrange;
use crate::models::ConfigError;
use crate::text::{char_text, join3};
use crate::tokens::{is_eq, reports, syntax_error, syntax_failure, Failure, Literal, Token};

verus! {

/// Whether the character is a decimal digit.
pub open spec fn is_digit(c: char) -> bool {
    48 <= c as u32 <= 57
}

/// Every character is a decimal digit.
pub open spec fn all_digits(digits: Seq<char>) -> bool {
    forall|i: int| 0 <= i < digits.len() ==> is_digit(#[trigger] digits[i])
}

/// The number that decimal digits spell.
pub open spec fn digits_value(digits: Seq<char>) -> int
    decreases digits.len(),
{
    if digits.len() == 0 {
        0
    } else {
        digits_value(digits.drop_last()) * 10 + (digits.last() as u32 - 48)
    }
}

/// The integer that a text spells: an optional sign, and then one digit or
/// more and nothing else.
pub open spec fn spelled_integer(text: Seq<char>) -> Option<int> {
    let signed = text.len() > 0 && (text[0] == '-' || text[0] == '+');
    let digits = if signed {
        text.drop_first()
    } else {
        text
    };
    if digits.len() > 0 && all_digits(digits) {
        if text[0] == '-' {
            Some(-digits_value(digits))
        } else {
            Some(digits_value(digits))
        }
    } else {
        None
    }
}

/// The number that a text spells, where it spells one that fits.
pub open spec fn parsed_i64(text: Seq<char>) -> Option<i64> {
    match spelled_integer(text) {
        Some(value) => if i64::MIN <= value <= i64::MAX {
            Some(value as i64)
        } else {
            None
        },
        None => None,
    }
}

/// `str::parse::<i64>`: the standard library accepts an optional sign
/// followed by decimal digits and nothing else, and refuses a number that
/// does not fit.
#[verifier::external_body]
fn parse_i64(text: &str) -> (parsed: Option<i64>)
    ensures
        parsed == parsed_i64(text@),
{
    text.parse::<i64>().ok()
}

/// `str::replace` with the pattern `'_'` and an empty replacement: every
/// underscore is taken out, and every other character stays in its place.
#[verifier::external_body]
fn without_underscores(val: &str) -> (cleaned: String)
    ensures
        cleaned@ == val@.filter(|c: char| c != '_'),
{
    val.replace('_', "")
}

/// A number as it is written, without the underscores that group its
/// digits.
pub fn sanitize_number(val: &str) -> (cleaned: String)
    ensures
        cleaned@ == val@.filter(|c: char| c != '_'),
{
    without_underscores(val)
}

/// The text of the diagnostic for a text that is no number of the kind
/// wanted.
pub open spec fn expected_number_message(kind: Seq<char>, text: Seq<char>) -> Seq<char> {
    "Expected "@ + kind + ", got `"@ + text + "`"@
}

/// The number that was parsed, or the diagnostic at `span` that names the
/// kind of number wanted and the text found.
pub fn number_or_error<T>(parsed: Option<T>, kind: &str, text: &str, span: proc_macro2::Span) -> (number:
    Result<T, ConfigError>)
    ensures
        match parsed {
            Some(value) => number == Ok::<T, ConfigError>(value),
            None => number is Err && reports(
                number->Err_0,
                syntax_failure(span, expected_number_message(kind@, text@)),
            ),
        },
{
    match parsed {
        Some(value) => Ok(value),
        None => {
            let mut message = join3("Expected ", kind, ", got `");
            message.append(text);
            message.append("`");
            Err(syntax_error(span, message.as_str()))
        },
    }
}

/// A number as it is written from the token at `start` on: its text, with
/// the minus sign where it has one, the place of its first token, and the
/// position behind it.
pub open spec fn number_text(tokens: Seq<Token>, start: int) -> (Seq<char>, proc_macro2::Span, int) {
    let first = tokens[start];
    if first.is_punct('-') {
        (seq!['-'] + tokens[start + 1].spec_text(), first.spec_span(), start + 2)
    } else {
        (first.spec_text(), first.spec_span(), start + 1)
    }
}

/// Reads a number as it is written, from the token at `start` on. A minus
/// sign is a token of its own, and the number follows it. Whatever token
/// stands there is taken by its text; this never fails.
pub fn read_number(tokens: &Vec<Token>, start: usize) -> (read: Result<
    (String, proc_macro2::Span, usize),
    ConfigError,
>)
    requires
        start < tokens@.len(),
        tokens@[start as int].is_punct('-') ==> start + 1 < tokens@.len(),
    ensures
        read is Ok,
        (read->Ok_0.0@, read->Ok_0.1, read->Ok_0.2 as int) == number_text(tokens@, start as int),
{
    // A length fits the machine word, and so do the positions up to it.
    let _len = tokens.len();
    let first = &tokens[start];
    let span = first.span();
    let minus = match first {
        Token::Punct(punct) => punct.ch == '-',
        _ => false,
    };
    if minus {
        let mut output = char_text('-');
        let text = tokens[start + 1].text();
        output.append(text.as_str());
        Ok((output, span, start + 2))
    } else {
        Ok((first.text(), span, start + 1))
    }
}

/// What reading `= number` from the token at `start` on must give: the
/// number and the position behind it.
pub open spec fn value_as_number(tokens: Seq<Token>, start: int) -> Result<(i64, int), Failure> {
    let (text, span, next) = number_text(tokens, start + 1);
    match parsed_i64(text.filter(|c: char| c != '_')) {
        Some(value) => Ok((value, next)),
        None => Err(syntax_failure(span, expected_number_message("i64"@, text))),
    }
}

/// Reads an equals sign and the number behind it, from the token at `start`
/// on. A text that is no number is reported at its first token.
pub fn parse_value_as_number(tokens: &Vec<Token>, start: usize) -> (parsed: Result<
    (i64, usize),
    ConfigError,
>)
    requires
        start + 1 < tokens@.len(),
        tokens@[start as int].is_punct('='),
        tokens@[start + 1].is_punct('-') ==> start + 2 < tokens@.len(),
    ensures
        match parsed {
            Ok((value, next)) => value_as_number(tokens@, start as int) == Ok::<
                (i64, int),
                Failure,
            >((value, next as int)),
            Err(error) => value_as_number(tokens@, start as int) is Err && reports(
                error,
                value_as_number(tokens@, start as int)->Err_0,
            ),
        },
{
    // A length fits the machine word, and so do the positions up to it.
    let _len = tokens.len();
    let (num_str, span, next) = match read_number(tokens, start + 1) {
        Ok(read) => read,
        Err(error) => {
            return Err(error);
        },
    };
    let cleaned = sanitize_number(num_str.as_str());
    match number_or_error(parse_i64(cleaned.as_str()), "i64", num_str.as_str(), span) {
        Ok(value) => Ok((value, next)),
        Err(error) => Err(error),
    }
}

/// The text that is handed to the number parser: the sign, and the literal
/// without underscores.
pub open spec fn signed_text(negative: bool, literal: Seq<char>) -> Seq<char> {
    if negative {
        seq!['-'] + literal.filter(|c: char| c != '_')
    } else {
        literal.filter(|c: char| c != '_')
    }
}

/// What parsing a literal as a number must give.
pub open spec fn number_of_literal(negative: bool, literal: Literal) -> Result<
    (i64, proc_macro2::Span),
    Failure,
> {
    match parsed_i64(signed_text(negative, literal.text@)) {
        Some(value) => Ok((value, literal.span)),
        None => Err(
            syntax_failure(
                literal.span,
                expected_number_message("i64"@, signed_text(negative, literal.text@)),
            ),
        ),
    }
}

/// Parses a literal, with the minus sign that stood before it if one did,
/// as a number. A literal that is no number is reported at its place, with
/// the text that was tried.
pub fn parse_number(negative: bool, literal: &Literal) -> (parsed: Result<
    (i64, proc_macro2::Span),
    ConfigError,
>)
    ensures
        match parsed {
            Ok(found) => number_of_literal(negative, *literal) == Ok::<
                (i64, proc_macro2::Span),
                Failure,
            >(found),
            Err(error) => number_of_literal(negative, *literal) is Err && reports(
                error,
                number_of_literal(negative, *literal)->Err_0,
            ),
        },
{
    let cleaned = sanitize_number(literal.text.as_str());
    let number_str = if negative {
        let mut signed = char_text('-');
        signed.append(cleaned.as_str());
        signed
    } else {
        cleaned
    };
    match number_or_error(parse_i64(number_str.as_str()), "i64", number_str.as_str(), literal.span) {
        Ok(value) => Ok((value, literal.span)),
        Err(error) => Err(error),
    }
}

/// Parses an integer literal, with its sign, as a number.
pub fn parse_integer(negative: bool, literal: &Literal) -> (parsed: Result<
    (i64, proc_macro2::Span),
    ConfigError,
>)
    ensures
        match parsed {
            Ok(found) => number_of_literal(negative, *literal) == Ok::<
                (i64, proc_macro2::Span),
                Failure,
            >(found),
            Err(error) => number_of_literal(negative, *literal) is Err && reports(
                error,
                number_of_literal(negative, *literal)->Err_0,
            ),
        },
{
    parse_number(negative, literal)
}

/// Reads what follows `with`: an equals sign, and then the expression,
/// which is handed back as the rest of the tokens. A missing or a wrong
/// first token is reported at `with_span`.
pub fn parse_with_token_stream<'a>(tokens: &'a Vec<Token>, with_span: proc_macro2::Span) -> (parsed:
    Result<&'a [Token], ConfigError>)
    ensures
        match parsed {
            Ok(rest) => {
                &&& tokens@.len() > 0
                &&& tokens@[0].is_punct('=')
                &&& rest@ == tokens@.subrange(1, tokens@.len() as int)
            },
            Err(error) => if tokens@.len() == 0 {
                reports(
                    error,
                    syntax_failure(with_span, "Invalid syntax for `with`. Missing `=`"@),
                )
            } else {
                !tokens@[0].is_punct('=') && reports(
                    error,
                    syntax_failure(with_span, "Invalid syntax for `with`. Expected `=`"@),
                )
            },
        },
{
    let n = tokens.len();
    if n == 0 {
        return Err(syntax_error(with_span, "Invalid syntax for `with`. Missing `=`"));
    }
    if !is_eq(&tokens[0]) {
        return Err(syntax_error(with_span, "Invalid syntax for `with`. Expected `=`"));
    }
    Ok(slice_subrange(tokens.as_slice(), 1, n))
}

} // verus!
