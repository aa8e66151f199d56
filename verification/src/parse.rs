//! The attribute parsers: the capabilities named in derivation lists, and
//! the options of a wrapper.

use vstd::prelude::*;
use crate::models::{ConfigError, ConfigErrorKind, DeriveTrait, Features, NewUnchecked, Spanned};
use crate::text::{join3, text_is};
use crate::tokens::{
    is_eq, reports, syntax_error, syntax_failure, try_unwrap_group, try_unwrap_ident,
    Failure, Group, Ident, Token,
};
use vstd::slice::slice_subrange;

verus! {

/// The text of the diagnostic for a capability whose feature is off.
pub open spec fn feature_message(capability: Seq<char>, feature: Seq<char>) -> Seq<char> {
    "To derive "@ + capability + ", the feature `"@ + feature
        + "` of the crate `nutype` needs to be enabled."@
}

/// The text of the diagnostic for a name that is no capability.
pub open spec fn unsupported_derive_message(name: Seq<char>) -> Seq<char> {
    "unsupported trait derive: "@ + name
}

/// A capability behind a feature: the capability where the feature is on,
/// else the kind and text of the diagnostic that names the feature.
pub open spec fn gated(
    on: bool,
    tr: DeriveTrait,
    capability: Seq<char>,
    feature: Seq<char>,
) -> Result<DeriveTrait, (ConfigErrorKind, Seq<char>)> {
    if on {
        Ok(tr)
    } else {
        Err((ConfigErrorKind::FeatureRequired, feature_message(capability, feature)))
    }
}

/// The capability that a name in a derivation list stands for, or the kind
/// and text of the diagnostic.
pub open spec fn derive_trait_named(name: Seq<char>, features: Features) -> Result<
    DeriveTrait,
    (ConfigErrorKind, Seq<char>),
> {
    if name == "Debug"@ {
        Ok(DeriveTrait::Debug)
    } else if name == "Display"@ {
        Ok(DeriveTrait::Display)
    } else if name == "Clone"@ {
        Ok(DeriveTrait::Clone)
    } else if name == "Copy"@ {
        Ok(DeriveTrait::Copy)
    } else if name == "PartialEq"@ {
        Ok(DeriveTrait::PartialEq)
    } else if name == "Eq"@ {
        Ok(DeriveTrait::Eq)
    } else if name == "PartialOrd"@ {
        Ok(DeriveTrait::PartialOrd)
    } else if name == "Ord"@ {
        Ok(DeriveTrait::Ord)
    } else if name == "FromStr"@ {
        Ok(DeriveTrait::FromStr)
    } else if name == "AsRef"@ {
        Ok(DeriveTrait::AsRef)
    } else if name == "Deref"@ {
        Ok(DeriveTrait::Deref)
    } else if name == "TryFrom"@ {
        Ok(DeriveTrait::TryFrom)
    } else if name == "From"@ {
        Ok(DeriveTrait::From)
    } else if name == "Into"@ {
        Ok(DeriveTrait::Into)
    } else if name == "Hash"@ {
        Ok(DeriveTrait::Hash)
    } else if name == "Borrow"@ {
        Ok(DeriveTrait::Borrow)
    } else if name == "Default"@ {
        Ok(DeriveTrait::Default)
    } else if name == "Serialize"@ {
        gated(features.serde, DeriveTrait::SerdeSerialize, "Serialize"@, "serde"@)
    } else if name == "Deserialize"@ {
        gated(features.serde, DeriveTrait::SerdeDeserialize, "Deserialize"@, "serde"@)
    } else if name == "JsonSchema"@ {
        gated(features.schemars, DeriveTrait::SchemarsJsonSchema, "JsonSchema"@, "schemars08"@)
    } else if name == "Arbitrary"@ {
        gated(features.arbitrary, DeriveTrait::ArbitraryArbitrary, "Arbitrary"@, "arbitrary"@)
    } else {
        Err((ConfigErrorKind::UnsupportedCapability, unsupported_derive_message(name)))
    }
}

fn gate(
    on: bool,
    tr: DeriveTrait,
    capability: &str,
    feature: &str,
    span: proc_macro2::Span,
) -> (outcome: Result<DeriveTrait, ConfigError>)
    ensures
        match outcome {
            Ok(granted) => gated(on, tr, capability@, feature@) == Ok::<
                DeriveTrait,
                (ConfigErrorKind, Seq<char>),
            >(granted),
            Err(error) => gated(on, tr, capability@, feature@) == Err::<
                DeriveTrait,
                (ConfigErrorKind, Seq<char>),
            >((error.kind, error.message@)) && error.span == span,
        },
{
    if on {
        Ok(tr)
    } else {
        let mut message = join3("To derive ", capability, ", the feature `");
        message.append(feature);
        message.append("` of the crate `nutype` needs to be enabled.");
        Err(ConfigError { kind: ConfigErrorKind::FeatureRequired, span, message })
    }
}

/// What parsing a name of a derivation list at `span` must give.
pub open spec fn derive_trait_at(
    name: Seq<char>,
    span: proc_macro2::Span,
    features: Features,
) -> Result<Spanned<DeriveTrait>, Failure> {
    match derive_trait_named(name, features) {
        Ok(tr) => Ok(Spanned { item: tr, span }),
        Err((kind, message)) => Err(Failure { kind, span: Some(span), message }),
    }
}

/// The parsed value is the expected one, or the diagnostic reports the
/// expected failure.
pub open spec fn agrees<T>(parsed: Result<T, ConfigError>, expected: Result<T, Failure>) -> bool {
    match parsed {
        Ok(value) => expected == Ok::<T, Failure>(value),
        Err(error) => expected is Err && reports(error, expected->Err_0),
    }
}

/// Resolves a name of a derivation list to the capability it requests. A
/// capability behind a feature that is off, and a name that is no
/// capability, are reported at the name.
pub fn parse_ident_into_derive_trait(ident: &Ident, features: Features) -> (parsed: Result<
    Spanned<DeriveTrait>,
    ConfigError,
>)
    ensures
        agrees(parsed, derive_trait_at(ident.name@, ident.span, features)),
{
    let name = ident.name.as_str();
    let span = ident.span;
    let resolved = if text_is(name, "Debug") {
        Ok(DeriveTrait::Debug)
    } else if text_is(name, "Display") {
        Ok(DeriveTrait::Display)
    } else if text_is(name, "Clone") {
        Ok(DeriveTrait::Clone)
    } else if text_is(name, "Copy") {
        Ok(DeriveTrait::Copy)
    } else if text_is(name, "PartialEq") {
        Ok(DeriveTrait::PartialEq)
    } else if text_is(name, "Eq") {
        Ok(DeriveTrait::Eq)
    } else if text_is(name, "PartialOrd") {
        Ok(DeriveTrait::PartialOrd)
    } else if text_is(name, "Ord") {
        Ok(DeriveTrait::Ord)
    } else if text_is(name, "FromStr") {
        Ok(DeriveTrait::FromStr)
    } else if text_is(name, "AsRef") {
        Ok(DeriveTrait::AsRef)
    } else if text_is(name, "Deref") {
        Ok(DeriveTrait::Deref)
    } else if text_is(name, "TryFrom") {
        Ok(DeriveTrait::TryFrom)
    } else if text_is(name, "From") {
        Ok(DeriveTrait::From)
    } else if text_is(name, "Into") {
        Ok(DeriveTrait::Into)
    } else if text_is(name, "Hash") {
        Ok(DeriveTrait::Hash)
    } else if text_is(name, "Borrow") {
        Ok(DeriveTrait::Borrow)
    } else if text_is(name, "Default") {
        Ok(DeriveTrait::Default)
    } else if text_is(name, "Serialize") {
        gate(features.serde, DeriveTrait::SerdeSerialize, "Serialize", "serde", span)
    } else if text_is(name, "Deserialize") {
        gate(features.serde, DeriveTrait::SerdeDeserialize, "Deserialize", "serde", span)
    } else if text_is(name, "JsonSchema") {
        gate(features.schemars, DeriveTrait::SchemarsJsonSchema, "JsonSchema", "schemars08", span)
    } else if text_is(name, "Arbitrary") {
        gate(features.arbitrary, DeriveTrait::ArbitraryArbitrary, "Arbitrary", "arbitrary", span)
    } else {
        let mut message = String::from_str("unsupported trait derive: ");
        message.append(name);
        Err(ConfigError { kind: ConfigErrorKind::UnsupportedCapability, span, message })
    };
    match resolved {
        Ok(tr) => Ok(Spanned { item: tr, span }),
        Err(error) => Err(error),
    }
}

/// The text of the diagnostic for a token that has no place in a
/// derivation list.
pub open spec fn unexpected_message(written: Seq<char>) -> Seq<char> {
    "Unexpected `"@ + written + "`"@
}

/// What a token of a derivation list must give: a capability for a name,
/// nothing for a comma, and a failure for anything else.
pub open spec fn derive_trait_of_token(token: Token, features: Features) -> Result<
    Option<Spanned<DeriveTrait>>,
    Failure,
> {
    match token {
        Token::Ident(ident) => match derive_trait_at(ident.name@, ident.span, features) {
            Ok(spanned) => Ok(Some(spanned)),
            Err(failure) => Err(failure),
        },
        _ => if token.is_punct(',') {
            Ok(None)
        } else if token.is_punct('*') {
            Err(syntax_failure(token.spec_span(), "Asterisk derive is not longer supported"@))
        } else {
            Err(syntax_failure(token.spec_span(), unexpected_message(token.spec_text())))
        },
    }
}

fn unexpected(token: &Token) -> (error: ConfigError)
    ensures
        reports(error, syntax_failure(token.spec_span(), unexpected_message(token.spec_text()))),
{
    let written = token.text();
    let message = join3("Unexpected `", written.as_str(), "`");
    syntax_error(token.span(), message.as_str())
}

/// Reads one token of a derivation list.
pub fn parse_token_into_derive_trait(token: &Token, features: Features) -> (parsed: Result<
    Option<Spanned<DeriveTrait>>,
    ConfigError,
>)
    ensures
        agrees(parsed, derive_trait_of_token(*token, features)),
{
    match token {
        Token::Ident(ident) => match parse_ident_into_derive_trait(ident, features) {
            Ok(spanned) => Ok(Some(spanned)),
            Err(error) => Err(error),
        },
        Token::Punct(punct) => {
            if punct.ch == ',' {
                Ok(None)
            } else if punct.ch == '*' {
                Err(syntax_error(punct.span, "Asterisk derive is not longer supported"))
            } else {
                Err(unexpected(token))
            }
        },
        _ => Err(unexpected(token)),
    }
}

/// What an attribute holds behind its path.
pub enum AttributeMeta {
    /// The path alone, with a description of it for a diagnostic.
    Path(String),
    /// The path, an equals sign and a value, with a description of them for
    /// a diagnostic.
    NameValue(String),
    /// The path and a delimited list of tokens.
    List(Vec<Token>),
}

/// An attribute written above the wrapper: the segments of its path, and
/// what follows the path.
pub struct Attribute {
    pub path: Vec<String>,
    pub meta: AttributeMeta,
}

impl Attribute {
    /// Whether the first segment of the path is `word`.
    pub open spec fn starts_with(&self, word: Seq<char>) -> bool {
        self.path@.len() > 0 && self.path@[0]@ == word
    }
}

/// Whether the attribute is a documentation comment.
pub fn is_doc_attribute(attribute: &Attribute) -> (doc: bool)
    ensures
        doc == attribute.starts_with("doc"@),
{
    if attribute.path.len() > 0 {
        text_is(attribute.path[0].as_str(), "doc")
    } else {
        false
    }
}

/// Whether the attribute is a derivation list.
pub fn is_derive_attribute(attribute: &Attribute) -> (derive: bool)
    ensures
        derive == attribute.starts_with("derive"@),
{
    if attribute.path.len() > 0 {
        text_is(attribute.path[0].as_str(), "derive")
    } else {
        false
    }
}

/// The capabilities named by the first `end` tokens of a derivation list,
/// in order, or the failure of the earliest token that has one.
pub open spec fn derive_traits_of_tokens(tokens: Seq<Token>, features: Features, end: int) -> Result<
    Seq<Spanned<DeriveTrait>>,
    Failure,
>
    decreases end,
{
    if end <= 0 {
        Ok(Seq::empty())
    } else {
        match derive_traits_of_tokens(tokens, features, end - 1) {
            Err(failure) => Err(failure),
            Ok(before) => match derive_trait_of_token(tokens[end - 1], features) {
                Err(failure) => Err(failure),
                Ok(None) => Ok(before),
                Ok(Some(spanned)) => Ok(before.push(spanned)),
            },
        }
    }
}

/// The failure of an attribute that is no list; `written` describes what
/// stands there instead.
pub open spec fn not_a_list_failure(written: Seq<char>) -> Failure {
    Failure {
        kind: ConfigErrorKind::Syntax,
        span: None,
        message: "Expected #[derive(...)], got: "@ + written,
    }
}

/// What a derivation attribute must give.
pub open spec fn derive_traits_of_attr(attr: Attribute, features: Features) -> Result<
    Seq<Spanned<DeriveTrait>>,
    Failure,
> {
    match attr.meta {
        AttributeMeta::List(tokens) => derive_traits_of_tokens(
            tokens@,
            features,
            tokens@.len() as int,
        ),
        AttributeMeta::Path(written) => Err(not_a_list_failure(written@)),
        AttributeMeta::NameValue(written) => Err(not_a_list_failure(written@)),
    }
}

/// The parsed list is the expected one, or the diagnostic reports the
/// expected failure.
pub open spec fn list_agrees<T>(
    parsed: Result<Vec<T>, ConfigError>,
    expected: Result<Seq<T>, Failure>,
) -> bool {
    match parsed {
        Ok(list) => expected == Ok::<Seq<T>, Failure>(list@),
        Err(error) => expected is Err && reports(error, expected->Err_0),
    }
}

fn not_a_list(written: &str) -> (error: ConfigError)
    ensures
        reports(error, not_a_list_failure(written@)),
{
    let mut message = String::from_str("Expected #[derive(...)], got: ");
    message.append(written);
    ConfigError { kind: ConfigErrorKind::Syntax, span: proc_macro2::Span::call_site(), message }
}

/// Reads the capabilities that one derivation attribute names.
pub fn parse_derive_attr(attr: &Attribute, features: Features) -> (parsed: Result<
    Vec<Spanned<DeriveTrait>>,
    ConfigError,
>)
    ensures
        list_agrees(parsed, derive_traits_of_attr(*attr, features)),
{
    match &attr.meta {
        AttributeMeta::List(tokens) => {
            let mut derive_traits: Vec<Spanned<DeriveTrait>> = Vec::new();
            let mut i: usize = 0;
            while i < tokens.len()
                invariant
                    i <= tokens@.len(),
                    attr.meta == AttributeMeta::List(*tokens),
                    derive_traits_of_tokens(tokens@, features, i as int) == Ok::<
                        Seq<Spanned<DeriveTrait>>,
                        Failure,
                    >(derive_traits@),
                decreases tokens@.len() - i,
            {
                match parse_token_into_derive_trait(&tokens[i], features) {
                    Ok(Some(spanned)) => derive_traits.push(spanned),
                    Ok(None) => {},
                    Err(error) => {
                        proof {
                            let failure = derive_trait_of_token(tokens@[i as int], features)->Err_0;
                            assert(derive_traits_of_tokens(tokens@, features, i + 1) == Err::<
                                Seq<Spanned<DeriveTrait>>,
                                Failure,
                            >(failure));
                            lemma_token_failure_stays(tokens@, features, i + 1, tokens@.len() as int);
                        }
                        return Err(error);
                    },
                }
                i += 1;
            }
            Ok(derive_traits)
        },
        AttributeMeta::Path(written) => Err(not_a_list(written.as_str())),
        AttributeMeta::NameValue(written) => Err(not_a_list(written.as_str())),
    }
}

/// A failure among the first tokens is the failure of the whole list.
pub proof fn lemma_token_failure_stays(tokens: Seq<Token>, features: Features, at: int, end: int)
    requires
        at <= end,
        derive_traits_of_tokens(tokens, features, at) is Err,
    ensures
        derive_traits_of_tokens(tokens, features, end) == derive_traits_of_tokens(
            tokens,
            features,
            at,
        ),
    decreases end - at,
{
    if at < end {
        lemma_token_failure_stays(tokens, features, at, end - 1);
    }
}

/// The capabilities named by the derivation lists among the first `end`
/// attributes, in order, or the failure of the earliest list that has one.
pub open spec fn derive_traits_of_attrs(attributes: Seq<Attribute>, features: Features, end: int) -> Result<
    Seq<Spanned<DeriveTrait>>,
    Failure,
>
    decreases end,
{
    if end <= 0 {
        Ok(Seq::empty())
    } else {
        match derive_traits_of_attrs(attributes, features, end - 1) {
            Err(failure) => Err(failure),
            Ok(before) => if attributes[end - 1].starts_with("derive"@) {
                match derive_traits_of_attr(attributes[end - 1], features) {
                    Err(failure) => Err(failure),
                    Ok(more) => Ok(before + more),
                }
            } else {
                Ok(before)
            },
        }
    }
}

/// A failure among the first attributes is the failure of them all.
pub proof fn lemma_attr_failure_stays(attributes: Seq<Attribute>, features: Features, at: int, end: int)
    requires
        at <= end,
        derive_traits_of_attrs(attributes, features, at) is Err,
    ensures
        derive_traits_of_attrs(attributes, features, end) == derive_traits_of_attrs(
            attributes,
            features,
            at,
        ),
    decreases end - at,
{
    if at < end {
        lemma_attr_failure_stays(attributes, features, at, end - 1);
    }
}

/// Reads the capabilities that the derivation lists among the attributes
/// request, in the order they are written. Attributes of other kinds are
/// passed over.
pub fn parse_derive_traits(attributes: &Vec<Attribute>, features: Features) -> (parsed: Result<
    Vec<Spanned<DeriveTrait>>,
    ConfigError,
>)
    ensures
        list_agrees(
            parsed,
            derive_traits_of_attrs(attributes@, features, attributes@.len() as int),
        ),
{
    let mut traits: Vec<Spanned<DeriveTrait>> = Vec::new();
    let mut i: usize = 0;
    while i < attributes.len()
        invariant
            i <= attributes@.len(),
            derive_traits_of_attrs(attributes@, features, i as int) == Ok::<
                Seq<Spanned<DeriveTrait>>,
                Failure,
            >(traits@),
        decreases attributes@.len() - i,
    {
        if is_derive_attribute(&attributes[i]) {
            match parse_derive_attr(&attributes[i], features) {
                Ok(mut more) => {
                    let ghost before = traits@;
                    let ghost added = more@;
                    traits.append(&mut more);
                    assert(traits@ =~= before + added);
                },
                Err(error) => {
                    proof {
                        let failure = derive_traits_of_attr(attributes@[i as int], features)->Err_0;
                        assert(derive_traits_of_attrs(attributes@, features, i + 1) == Err::<
                            Seq<Spanned<DeriveTrait>>,
                            Failure,
                        >(failure));
                        lemma_attr_failure_stays(
                            attributes@,
                            features,
                            i + 1,
                            attributes@.len() as int,
                        );
                    }
                    return Err(error);
                },
            }
        }
        i += 1;
    }
    Ok(traits)
}

} // verus!

verus! {

/// The options of a wrapper, with the rule lists as their parsers gave
/// them.
pub struct Attributes<'a, S, V> {
    pub sanitizers: Vec<S>,
    pub validators: Vec<V>,
    pub new_unchecked: NewUnchecked,
    pub maybe_default_value: Option<&'a Token>,
}

/// What the options of a wrapper say.
pub ghost struct Options<S, V> {
    pub sanitizers: Seq<S>,
    pub validators: Seq<V>,
    pub new_unchecked: NewUnchecked,
    pub default_value: Option<Token>,
}

impl<'a, S, V> Attributes<'a, S, V> {
    pub open spec fn options(&self) -> Options<S, V> {
        Options {
            sanitizers: self.sanitizers@,
            validators: self.validators@,
            new_unchecked: self.new_unchecked,
            default_value: match self.maybe_default_value {
                Some(token) => Some(*token),
                None => None,
            },
        }
    }
}

/// No option given: no rules, no unchecked constructor, no default value.
pub open spec fn no_options<S, V>() -> Options<S, V> {
    Options {
        sanitizers: Seq::empty(),
        validators: Seq::empty(),
        new_unchecked: NewUnchecked::Off,
        default_value: None,
    }
}

pub open spec fn sanitize_needs_parenthesis() -> Seq<char> {
    "`sanitize` must be used with parenthesis.\nFor example:\n\n    sanitize(trim)\n\n"@
}

pub open spec fn validate_needs_parenthesis() -> Seq<char> {
    "`validate` must be used with parenthesis.\nFor example:\n\n    validate(max = 99)\n\n"@
}

pub open spec fn new_unchecked_needs_feature() -> Seq<char> {
    "To generate ::new_unchecked() function, the feature `new_unchecked` of crate `nutype` needs to be enabled.\nBut you ought to know: generally, THIS IS A BAD IDEA.\nUse it only when you really need it."@
}

pub open spec fn unknown_option_message(name: Seq<char>) -> Seq<char> {
    "Unknown #[nutype] option: `"@ + name + "`"@
}

/// The group that follows the option word at `pos`, or the failure: the
/// word must be followed by a group.
pub open spec fn group_after(tokens: Seq<Token>, pos: int, missing: Seq<char>) -> Result<
    Group,
    Failure,
> {
    if pos + 1 >= tokens.len() {
        Err(syntax_failure(tokens[pos].spec_span(), missing))
    } else {
        match tokens[pos + 1] {
            Token::Group(group) => Ok(group),
            _ => Err(syntax_failure(tokens[pos + 1].spec_span(), "#[nutype] expected group"@)),
        }
    }
}

/// The value that follows `default` at `pos` and an equals sign, or the
/// failure.
pub open spec fn default_after(tokens: Seq<Token>, pos: int) -> Result<Token, Failure> {
    if pos + 1 >= tokens.len() {
        Err(syntax_failure(tokens[pos].spec_span(), "Invalid syntax for `default`. Missing `=`"@))
    } else if !tokens[pos + 1].is_punct('=') {
        Err(syntax_failure(tokens[pos].spec_span(), "Invalid syntax for `default`. Expected `=`"@))
    } else if pos + 2 >= tokens.len() {
        Err(syntax_failure(tokens[pos].spec_span(), "Missing default value"@))
    } else {
        Ok(tokens[pos + 2])
    }
}

/// Why `new_unchecked` at `pos` cannot be granted, if it cannot: the
/// feature must be on, and no options may follow the word.
pub open spec fn new_unchecked_failure(tokens: Seq<Token>, features: Features, pos: int) -> Option<
    Failure,
> {
    if !features.new_unchecked {
        Some(
            Failure {
                kind: ConfigErrorKind::FeatureRequired,
                span: Some(tokens[pos].spec_span()),
                message: new_unchecked_needs_feature(),
            },
        )
    } else if pos + 1 < tokens.len() && !(tokens[pos + 1] is Ident) {
        Some(
            syntax_failure(
                tokens[pos + 1].spec_span(),
                "new_unchecked does not support any options"@,
            ),
        )
    } else {
        None
    }
}

/// The outcome is a diagnostic that reports the failure.
pub open spec fn fails_with<T>(outcome: Result<T, ConfigError>, failure: Failure) -> bool {
    outcome is Err && reports(outcome->Err_0, failure)
}

/// Reading the options from `pos` on, with `so_far` read before, can end in
/// `outcome`. Each `sanitize(..)` and `validate(..)` hands the content of
/// its group to its parser: the list that the parser gives replaces the
/// list read before, and the diagnostic that it gives ends the reading. The
/// earliest option that is unknown, ill-formed, behind a feature that is
/// off, or refused by its parser decides the diagnostic.
pub open spec fn options_run<S, V, PS, PV>(
    tokens: Seq<Token>,
    features: Features,
    parse_sanitize_attrs: PS,
    parse_validate_attrs: PV,
    pos: int,
    so_far: Options<S, V>,
    outcome: Result<Options<S, V>, ConfigError>,
) -> bool where
    PS: Fn(&[Token]) -> Result<Vec<S>, ConfigError>,
    PV: Fn(&[Token]) -> Result<Vec<V>, ConfigError>,

    decreases tokens.len() - pos,
{
    if pos < 0 || pos >= tokens.len() {
        outcome == Ok::<Options<S, V>, ConfigError>(so_far)
    } else {
        match tokens[pos] {
            Token::Ident(ident) => if ident.name@ == "sanitize"@ {
                match group_after(tokens, pos, sanitize_needs_parenthesis()) {
                    Err(failure) => fails_with(outcome, failure),
                    Ok(group) => exists|rules: Result<Vec<S>, ConfigError>|
                        {
                            &&& #[trigger] parses_to(parse_sanitize_attrs, group.stream@, rules)
                            &&& match rules {
                                Ok(list) => options_run(
                                    tokens,
                                    features,
                                    parse_sanitize_attrs,
                                    parse_validate_attrs,
                                    pos + 2,
                                    Options { sanitizers: list@, ..so_far },
                                    outcome,
                                ),
                                Err(error) => outcome == Err::<Options<S, V>, ConfigError>(error),
                            }
                        },
                }
            } else if ident.name@ == "validate"@ {
                match group_after(tokens, pos, validate_needs_parenthesis()) {
                    Err(failure) => fails_with(outcome, failure),
                    Ok(group) => exists|rules: Result<Vec<V>, ConfigError>|
                        {
                            &&& #[trigger] parses_to(parse_validate_attrs, group.stream@, rules)
                            &&& match rules {
                                Ok(list) => options_run(
                                    tokens,
                                    features,
                                    parse_sanitize_attrs,
                                    parse_validate_attrs,
                                    pos + 2,
                                    Options { validators: list@, ..so_far },
                                    outcome,
                                ),
                                Err(error) => outcome == Err::<Options<S, V>, ConfigError>(error),
                            }
                        },
                }
            } else if ident.name@ == "default"@ {
                match default_after(tokens, pos) {
                    Err(failure) => fails_with(outcome, failure),
                    Ok(value) => options_run(
                        tokens,
                        features,
                        parse_sanitize_attrs,
                        parse_validate_attrs,
                        pos + 3,
                        Options { default_value: Some(value), ..so_far },
                        outcome,
                    ),
                }
            } else if ident.name@ == "new_unchecked"@ {
                match new_unchecked_failure(tokens, features, pos) {
                    Some(failure) => fails_with(outcome, failure),
                    None => options_run(
                        tokens,
                        features,
                        parse_sanitize_attrs,
                        parse_validate_attrs,
                        pos + 1,
                        Options { new_unchecked: NewUnchecked::On, ..so_far },
                        outcome,
                    ),
                }
            } else {
                fails_with(
                    outcome,
                    Failure {
                        kind: ConfigErrorKind::UnknownOption,
                        span: Some(ident.span),
                        message: unknown_option_message(ident.name@),
                    },
                )
            },
            _ => fails_with(
                outcome,
                syntax_failure(tokens[pos].spec_span(), "#[nutype] expected ident"@),
            ),
        }
    }
}

/// What was parsed, as an outcome of reading the options.
pub open spec fn options_outcome<S, V>(parsed: Result<Attributes<'_, S, V>, ConfigError>) -> Result<
    Options<S, V>,
    ConfigError,
> {
    match parsed {
        Ok(attributes) => Ok(attributes.options()),
        Err(error) => Err(error),
    }
}

fn take_group<'a>(tokens: &'a Vec<Token>, pos: usize, missing: &str) -> (taken: Result<
    &'a Group,
    ConfigError,
>)
    requires
        pos < tokens@.len(),
    ensures
        match taken {
            Ok(group) => group_after(tokens@, pos as int, missing@) == Ok::<Group, Failure>(*group),
            Err(error) => group_after(tokens@, pos as int, missing@) is Err && reports(
                error,
                group_after(tokens@, pos as int, missing@)->Err_0,
            ),
        },
{
    let n = tokens.len();
    if pos + 1 >= n {
        Err(syntax_error(tokens[pos].span(), missing))
    } else {
        try_unwrap_group(&tokens[pos + 1])
    }
}

fn take_default<'a>(tokens: &'a Vec<Token>, pos: usize) -> (taken: Result<&'a Token, ConfigError>)
    requires
        pos < tokens@.len(),
    ensures
        match taken {
            Ok(value) => default_after(tokens@, pos as int) == Ok::<Token, Failure>(*value),
            Err(error) => default_after(tokens@, pos as int) is Err && reports(
                error,
                default_after(tokens@, pos as int)->Err_0,
            ),
        },
{
    let span = tokens[pos].span();
    let n = tokens.len();
    if pos + 1 >= n {
        Err(syntax_error(span, "Invalid syntax for `default`. Missing `=`"))
    } else if !is_eq(&tokens[pos + 1]) {
        Err(syntax_error(span, "Invalid syntax for `default`. Expected `=`"))
    } else if pos + 2 >= n {
        Err(syntax_error(span, "Missing default value"))
    } else {
        Ok(&tokens[pos + 2])
    }
}

fn check_new_unchecked(tokens: &Vec<Token>, features: Features, pos: usize) -> (checked: Result<
    (),
    ConfigError,
>)
    requires
        pos < tokens@.len(),
    ensures
        match checked {
            Ok(_) => new_unchecked_failure(tokens@, features, pos as int).is_none(),
            Err(error) => new_unchecked_failure(tokens@, features, pos as int).is_some() && reports(
                error,
                new_unchecked_failure(tokens@, features, pos as int).unwrap(),
            ),
        },
{
    let n = tokens.len();
    if !features.new_unchecked {
        Err(
            ConfigError {
                kind: ConfigErrorKind::FeatureRequired,
                span: tokens[pos].span(),
                message: String::from_str(
                    "To generate ::new_unchecked() function, the feature `new_unchecked` of crate `nutype` needs to be enabled.\nBut you ought to know: generally, THIS IS A BAD IDEA.\nUse it only when you really need it.",
                ),
            },
        )
    } else if pos + 1 < n {
        match &tokens[pos + 1] {
            Token::Ident(_) => Ok(()),
            other => Err(syntax_error(other.span(), "new_unchecked does not support any options")),
        }
    } else {
        Ok(())
    }
}

/// Reads the options of a wrapper: `sanitize(..)`, `validate(..)`,
/// `default = value` and `new_unchecked`, in any order and number. The
/// content of each `sanitize` and `validate` group goes to its parser at
/// once, and a later list replaces an earlier one. The earliest option that
/// is unknown, ill-formed, behind a feature that is off, or refused by its
/// parser stops the reading with its diagnostic.
pub fn parse_nutype_attributes<'a, S, V, PS, PV>(
    input: &'a Vec<Token>,
    features: Features,
    parse_sanitize_attrs: PS,
    parse_validate_attrs: PV,
) -> (parsed: Result<Attributes<'a, S, V>, ConfigError>) where
    PS: Fn(&[Token]) -> Result<Vec<S>, ConfigError>,
    PV: Fn(&[Token]) -> Result<Vec<V>, ConfigError>,

    requires
        forall|content: &[Token]| parse_sanitize_attrs.requires((content,)),
        forall|content: &[Token]| parse_validate_attrs.requires((content,)),
    ensures
        options_run(
            input@,
            features,
            parse_sanitize_attrs,
            parse_validate_attrs,
            0,
            no_options(),
            options_outcome(parsed),
        ),
{
    let mut attributes: Attributes<'a, S, V> = Attributes {
        sanitizers: Vec::new(),
        validators: Vec::new(),
        new_unchecked: NewUnchecked::Off,
        maybe_default_value: None,
    };
    assert(attributes.options() == no_options::<S, V>());
    let mut pos: usize = 0;
    while pos < input.len()
        invariant
            pos <= input@.len(),
            forall|content: &[Token]| parse_sanitize_attrs.requires((content,)),
            forall|content: &[Token]| parse_validate_attrs.requires((content,)),
            forall|outcome: Result<Options<S, V>, ConfigError>| #[trigger]
                options_run(
                    input@,
                    features,
                    parse_sanitize_attrs,
                    parse_validate_attrs,
                    pos as int,
                    attributes.options(),
                    outcome,
                ) ==> options_run(
                    input@,
                    features,
                    parse_sanitize_attrs,
                    parse_validate_attrs,
                    0,
                    no_options(),
                    outcome,
                ),
        decreases input@.len() - pos,
    {
        let ghost before = attributes.options();
        let ghost here = pos as int;
        let ident = match try_unwrap_ident(&input[pos]) {
            Ok(ident) => ident,
            Err(error) => {
                assert(options_run(
                    input@,
                    features,
                    parse_sanitize_attrs,
                    parse_validate_attrs,
                    here,
                    before,
                    Err(error),
                ));
                return Err(error);
            },
        };
        let name = ident.name.as_str();
        if text_is(name, "sanitize") {
            let group = match take_group(
                input,
                pos,
                "`sanitize` must be used with parenthesis.\nFor example:\n\n    sanitize(trim)\n\n",
            ) {
                Ok(group) => group,
                Err(error) => {
                    assert(options_run(
                        input@,
                        features,
                        parse_sanitize_attrs,
                        parse_validate_attrs,
                        here,
                        before,
                        Err(error),
                    ));
                    return Err(error);
                },
            };
            let content = group.stream.as_slice();
            let rules = parse_sanitize_attrs(content);
            assert(parses_to(parse_sanitize_attrs, group.stream@, rules));
            match rules {
                Ok(list) => {
                    attributes.sanitizers = list;
                    pos += 2;
                },
                Err(error) => {
                    assert(options_run(
                        input@,
                        features,
                        parse_sanitize_attrs,
                        parse_validate_attrs,
                        here,
                        before,
                        Err(error),
                    ));
                    return Err(error);
                },
            }
        } else if text_is(name, "validate") {
            let group = match take_group(
                input,
                pos,
                "`validate` must be used with parenthesis.\nFor example:\n\n    validate(max = 99)\n\n",
            ) {
                Ok(group) => group,
                Err(error) => {
                    assert(options_run(
                        input@,
                        features,
                        parse_sanitize_attrs,
                        parse_validate_attrs,
                        here,
                        before,
                        Err(error),
                    ));
                    return Err(error);
                },
            };
            let content = group.stream.as_slice();
            let rules = parse_validate_attrs(content);
            assert(parses_to(parse_validate_attrs, group.stream@, rules));
            match rules {
                Ok(list) => {
                    attributes.validators = list;
                    pos += 2;
                },
                Err(error) => {
                    assert(options_run(
                        input@,
                        features,
                        parse_sanitize_attrs,
                        parse_validate_attrs,
                        here,
                        before,
                        Err(error),
                    ));
                    return Err(error);
                },
            }
        } else if text_is(name, "default") {
            match take_default(input, pos) {
                Ok(value) => {
                    attributes.maybe_default_value = Some(value);
                    pos += 3;
                },
                Err(error) => {
                    assert(options_run(
                        input@,
                        features,
                        parse_sanitize_attrs,
                        parse_validate_attrs,
                        here,
                        before,
                        Err(error),
                    ));
                    return Err(error);
                },
            }
        } else if text_is(name, "new_unchecked") {
            match check_new_unchecked(input, features, pos) {
                Ok(_) => {
                    attributes.new_unchecked = NewUnchecked::On;
                    pos += 1;
                },
                Err(error) => {
                    assert(options_run(
                        input@,
                        features,
                        parse_sanitize_attrs,
                        parse_validate_attrs,
                        here,
                        before,
                        Err(error),
                    ));
                    return Err(error);
                },
            }
        } else {
            let message = join3("Unknown #[nutype] option: `", name, "`");
            let error = ConfigError {
                kind: ConfigErrorKind::UnknownOption,
                span: ident.span,
                message,
            };
            assert(options_run(
                input@,
                features,
                parse_sanitize_attrs,
                parse_validate_attrs,
                here,
                before,
                Err(error),
            ));
            return Err(error);
        }
        assert forall|outcome: Result<Options<S, V>, ConfigError>| #[trigger]
            options_run(
                input@,
                features,
                parse_sanitize_attrs,
                parse_validate_attrs,
                pos as int,
                attributes.options(),
                outcome,
            ) implies options_run(
            input@,
            features,
            parse_sanitize_attrs,
            parse_validate_attrs,
            0,
            no_options(),
            outcome,
        ) by {
            assert(options_run(
                input@,
                features,
                parse_sanitize_attrs,
                parse_validate_attrs,
                here,
                before,
                outcome,
            ));
        }
    }
    assert(options_run(
        input@,
        features,
        parse_sanitize_attrs,
        parse_validate_attrs,
        pos as int,
        attributes.options(),
        Ok(attributes.options()),
    ));
    Ok(attributes)
}

/// The options of a wrapper with their rules parsed.
#[derive(Debug)]
pub struct ParseableAttributes<Sanitizer, Validator> {
    pub sanitizers: Vec<Sanitizer>,
    pub validators: Vec<Validator>,
    pub new_unchecked: NewUnchecked,
    pub default: Option<String>,
}

impl<Sanitizer, Validator> Default for ParseableAttributes<Sanitizer, Validator> {
    /// No rules, no unchecked constructor, no default value.
    fn default() -> (attrs: Self)
        ensures
            attrs.sanitizers@.len() == 0,
            attrs.validators@.len() == 0,
            attrs.new_unchecked == NewUnchecked::Off,
            attrs.default.is_none(),
    {
        Self {
            sanitizers: Vec::new(),
            validators: Vec::new(),
            new_unchecked: NewUnchecked::Off,
            default: None,
        }
    }
}

/// What each of the pieces holds.
pub open spec fn piece_views(pieces: Seq<&[Token]>) -> Seq<Seq<Token>> {
    Seq::new(pieces.len(), |i: int| pieces[i]@)
}

/// The parser, run on a piece that holds `content`, can give `outcome`.
pub open spec fn parses_to<OUT, PRS: Fn(&[Token]) -> Result<OUT, ConfigError>>(
    parse: PRS,
    content: Seq<Token>,
    outcome: Result<OUT, ConfigError>,
) -> bool {
    exists|piece: &[Token]| piece@ == content && #[trigger] parse.ensures((piece,), outcome)
}

/// The parser, run on a piece that holds `content`, can succeed.
pub open spec fn parses<OUT, PRS: Fn(&[Token]) -> Result<OUT, ConfigError>>(
    parse: PRS,
    content: Seq<Token>,
) -> bool {
    exists|outcome: Result<OUT, ConfigError>|
        outcome is Ok && #[trigger] parses_to(parse, content, outcome)
}

/// The verdicts are what the separator test can say of the tokens, one for
/// one.
pub open spec fn separates<SEP: Fn(&Token) -> bool>(
    is_separator: SEP,
    tokens: Seq<Token>,
    verdicts: Seq<bool>,
) -> bool {
    &&& verdicts.len() == tokens.len()
    &&& forall|i: int|
        0 <= i < tokens.len() ==> is_separator.ensures((&tokens[i],), #[trigger] verdicts[i])
}

/// The non-empty runs of tokens between separators, from `pos` on, where
/// `verdicts` says which tokens separate; `current` is the run that the
/// token at `pos` would go on.
pub open spec fn split_by(
    tokens: Seq<Token>,
    verdicts: Seq<bool>,
    pos: int,
    current: Seq<Token>,
) -> Seq<Seq<Token>>
    decreases tokens.len() - pos,
{
    let done = if current.len() > 0 {
        seq![current]
    } else {
        Seq::empty()
    };
    if pos < 0 || pos >= tokens.len() {
        done
    } else if verdicts[pos] {
        done + split_by(tokens, verdicts, pos + 1, Seq::empty())
    } else {
        split_by(tokens, verdicts, pos + 1, current.push(tokens[pos]))
    }
}

fn split_with<'a, SEP>(tokens: &'a Vec<Token>, is_separator: SEP) -> (split: (
    Vec<&'a [Token]>,
    Vec<bool>,
)) where SEP: Fn(&Token) -> bool
    requires
        forall|token: &Token| is_separator.requires((token,)),
    ensures
        separates(is_separator, tokens@, split.1@),
        piece_views(split.0@) == split_by(tokens@, split.1@, 0, Seq::empty()),
{
    let n = tokens.len();
    let mut verdicts: Vec<bool> = Vec::new();
    let mut i: usize = 0;
    while i < n
        invariant
            n == tokens@.len(),
            i <= n,
            verdicts@.len() == i,
            forall|token: &Token| is_separator.requires((token,)),
            forall|k: int|
                0 <= k < i ==> is_separator.ensures((&tokens@[k],), #[trigger] verdicts@[k]),
        decreases n - i,
    {
        let verdict = is_separator(&tokens[i]);
        verdicts.push(verdict);
        i += 1;
    }
    let whole = tokens.as_slice();
    let mut pieces: Vec<&'a [Token]> = Vec::new();
    let mut piece_start: usize = 0;
    let mut pos: usize = 0;
    assert(tokens@.subrange(0, 0) =~= Seq::<Token>::empty());
    assert(piece_views(pieces@) =~= Seq::<Seq<Token>>::empty());
    while pos < n
        invariant
            n == tokens@.len(),
            verdicts@.len() == n,
            whole@ == tokens@,
            piece_start <= pos <= n,
            piece_views(pieces@) + split_by(
                tokens@,
                verdicts@,
                pos as int,
                tokens@.subrange(piece_start as int, pos as int),
            ) == split_by(tokens@, verdicts@, 0, Seq::empty()),
        decreases n - pos,
    {
        let ghost before = piece_views(pieces@);
        let ghost current = tokens@.subrange(piece_start as int, pos as int);
        if verdicts[pos] {
            if piece_start < pos {
                pieces.push(slice_subrange(whole, piece_start, pos));
                assert(piece_views(pieces@) =~= before + seq![current]);
            }
            piece_start = pos + 1;
            assert(tokens@.subrange(piece_start as int, pos + 1) =~= Seq::<Token>::empty());
        } else {
            assert(tokens@.subrange(piece_start as int, pos + 1) =~= current.push(
                tokens@[pos as int],
            ));
        }
        pos += 1;
    }
    if piece_start < pos {
        let ghost before = piece_views(pieces@);
        pieces.push(slice_subrange(whole, piece_start, pos));
        assert(piece_views(pieces@) =~= before + seq![
            tokens@.subrange(piece_start as int, pos as int),
        ]);
    }
    (pieces, verdicts)
}

/// What parsing the pieces in turn gives: an item for each piece, or the
/// diagnostic of the first piece that does not parse.
pub open spec fn pieces_parse_to<OUT, PRS: Fn(&[Token]) -> Result<OUT, ConfigError>>(
    parse: PRS,
    pieces: Seq<Seq<Token>>,
    parsed: Result<Vec<OUT>, ConfigError>,
) -> bool {
    match parsed {
        Ok(items) => {
            &&& items@.len() == pieces.len()
            &&& forall|i: int|
                0 <= i < items@.len() ==> parses_to(parse, pieces[i], Ok(#[trigger] items@[i]))
        },
        Err(error) => exists|k: int|
            {
                &&& 0 <= k < pieces.len()
                &&& parses_to(parse, #[trigger] pieces[k], Err(error))
                &&& forall|j: int| 0 <= j < k ==> #[trigger] parses::<OUT, PRS>(parse, pieces[j])
            },
    }
}

/// Splits the tokens at the separators, drops the empty pieces, and parses
/// each piece in turn. The first piece that does not parse stops the work
/// with its diagnostic.
pub fn split_and_parse<SEP, PRS, OUT>(tokens: &Vec<Token>, is_separator: SEP, parse: PRS) -> (parsed:
    Result<Vec<OUT>, ConfigError>) where
    SEP: Fn(&Token) -> bool,
    PRS: Fn(&[Token]) -> Result<OUT, ConfigError>,

    requires
        forall|token: &Token| is_separator.requires((token,)),
        forall|piece: &[Token]| parse.requires((piece,)),
    ensures
        exists|verdicts: Seq<bool>|
            {
                &&& #[trigger] separates(is_separator, tokens@, verdicts)
                &&& pieces_parse_to(parse, split_by(tokens@, verdicts, 0, Seq::empty()), parsed)
            },
{
    let (pieces, verdicts) = split_with(tokens, is_separator);
    let ghost wanted = split_by(tokens@, verdicts@, 0, Seq::empty());
    let mut items: Vec<OUT> = Vec::new();
    let mut i: usize = 0;
    while i < pieces.len()
        invariant
            i <= pieces@.len(),
            items@.len() == i,
            piece_views(pieces@) == wanted,
            separates(is_separator, tokens@, verdicts@),
            wanted == split_by(tokens@, verdicts@, 0, Seq::empty()),
            forall|piece: &[Token]| parse.requires((piece,)),
            forall|j: int| 0 <= j < i ==> parses_to(parse, wanted[j], Ok(#[trigger] items@[j])),
        decreases pieces@.len() - i,
    {
        let piece = pieces[i];
        assert(piece@ == piece_views(pieces@)[i as int]);
        match parse(piece) {
            Ok(item) => {
                let ghost earlier = items@;
                items.push(item);
                assert(parse.ensures((piece,), Ok(items@[i as int])));
                assert forall|j: int| 0 <= j < i + 1 implies parses_to(
                    parse,
                    wanted[j],
                    Ok(#[trigger] items@[j]),
                ) by {
                    if j < i {
                        assert(items@[j] == earlier[j]);
                    }
                }
            },
            Err(error) => {
                assert(parse.ensures((piece,), Err(error)));
                assert(parses_to(parse, wanted[i as int], Err(error)));
                assert forall|j: int| 0 <= j < i implies #[trigger] parses::<OUT, PRS>(
                    parse,
                    wanted[j],
                ) by {
                    assert(parses_to(parse, wanted[j], Ok(items@[j])));
                }
                let failed: Result<Vec<OUT>, ConfigError> = Err(error);
                assert(pieces_parse_to(parse, wanted, failed));
                return failed;
            },
        }
        i += 1;
    }
    assert(pieces@.len() == wanted.len());
    let done: Result<Vec<OUT>, ConfigError> = Ok(items);
    assert(pieces_parse_to(parse, wanted, done));
    done
}

/// One of the words that an option of a wrapper begins with.
#[derive(Clone, Copy, Debug, PartialEq, Eq, Structural)]
pub enum OptionWord {
    Sanitize,
    Validate,
    Default,
    NewUnchecked,
}

pub open spec fn unknown_attribute_message(name: Seq<char>) -> Seq<char> {
    "Unknown attribute `"@ + name + "`"@
}

/// The option that a word written at `span` begins, or the failure: the
/// unchecked constructor needs its feature, and any other word is unknown.
pub open spec fn option_word_at(name: Seq<char>, span: proc_macro2::Span, features: Features) -> Result<
    OptionWord,
    Failure,
> {
    if name == "sanitize"@ {
        Ok(OptionWord::Sanitize)
    } else if name == "validate"@ {
        Ok(OptionWord::Validate)
    } else if name == "default"@ {
        Ok(OptionWord::Default)
    } else if name == "new_unchecked"@ {
        if features.new_unchecked {
            Ok(OptionWord::NewUnchecked)
        } else {
            Err(
                Failure {
                    kind: ConfigErrorKind::FeatureRequired,
                    span: Some(span),
                    message: new_unchecked_needs_feature(),
                },
            )
        }
    } else {
        Err(
            Failure {
                kind: ConfigErrorKind::UnknownOption,
                span: Some(span),
                message: unknown_attribute_message(name),
            },
        )
    }
}

/// Tells which option a word begins.
pub fn option_word(name: &str, span: proc_macro2::Span, features: Features) -> (word: Result<
    OptionWord,
    ConfigError,
>)
    ensures
        agrees(word, option_word_at(name@, span, features)),
{
    if text_is(name, "sanitize") {
        Ok(OptionWord::Sanitize)
    } else if text_is(name, "validate") {
        Ok(OptionWord::Validate)
    } else if text_is(name, "default") {
        Ok(OptionWord::Default)
    } else if text_is(name, "new_unchecked") {
        if features.new_unchecked {
            Ok(OptionWord::NewUnchecked)
        } else {
            Err(
                ConfigError {
                    kind: ConfigErrorKind::FeatureRequired,
                    span,
                    message: String::from_str(
                        "To generate ::new_unchecked() function, the feature `new_unchecked` of crate `nutype` needs to be enabled.\nBut you ought to know: generally, THIS IS A BAD IDEA.\nUse it only when you really need it.",
                    ),
                },
            )
        }
    } else {
        let message = join3("Unknown attribute `", name, "`");
        Err(ConfigError { kind: ConfigErrorKind::UnknownOption, span, message })
    }
}

} // verus!
