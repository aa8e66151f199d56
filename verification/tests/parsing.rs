use nutype_macros::models::{ConfigError, ConfigErrorKind, DeriveTrait, Features, NewUnchecked};
use nutype_macros::numbers::{
    number_or_error, parse_integer, parse_number, parse_value_as_number, parse_with_token_stream,
    read_number, sanitize_number,
};
use nutype_macros::parse::{
    is_derive_attribute, is_doc_attribute, option_word, parse_derive_attr, parse_derive_traits,
    parse_ident_into_derive_trait, parse_nutype_attributes, parse_token_into_derive_trait,
    split_and_parse, Attribute, AttributeMeta, OptionWord, ParseableAttributes,
};
use nutype_macros::tokens::{
    is_comma, is_eq, try_unwrap_group, try_unwrap_ident, Delimiter, Group, Ident, Literal, Punct,
    Token,
};
use proc_macro2::Span;

fn span() -> Span {
    Span::call_site()
}

fn ident(name: &str) -> Token {
    Token::Ident(Ident { name: name.to_string(), span: span() })
}

fn punct(ch: char) -> Token {
    Token::Punct(Punct { ch, span: span() })
}

fn literal(text: &str) -> Token {
    Token::Literal(Literal { text: text.to_string(), span: span() })
}

fn group(stream: Vec<Token>) -> Token {
    Token::Group(Group { delimiter: Delimiter::Parenthesis, stream, span: span() })
}

fn all_on() -> Features {
    Features { new_unchecked: true, serde: true, schemars: true, arbitrary: true }
}

fn all_off() -> Features {
    Features { new_unchecked: false, serde: false, schemars: false, arbitrary: false }
}

fn name_of(token: &Token) -> &str {
    match token {
        Token::Ident(ident) => &ident.name,
        Token::Literal(literal) => &literal.text,
        _ => "",
    }
}

#[test]
fn commas_and_equals_signs_are_told_apart() {
    assert!(is_comma(&punct(',')));
    assert!(!is_comma(&punct('=')));
    assert!(!is_comma(&ident("a")));
    assert!(is_eq(&punct('=')));
    assert!(!is_eq(&punct(',')));
    assert!(!is_eq(&literal("=")));
}

#[test]
fn unwrapping_reports_the_wrong_kind_of_token() {
    assert!(matches!(try_unwrap_ident(&ident("min")), Ok(found) if found.name == "min"));
    match try_unwrap_ident(&punct(',')) {
        Err(error) => {
            assert_eq!(error.kind, ConfigErrorKind::Syntax);
            assert_eq!(error.message, "#[nutype] expected ident");
        }
        Ok(_) => panic!("expected a diagnostic"),
    }
    assert!(matches!(try_unwrap_group(&group(vec![ident("a")])), Ok(found) if found.stream.len() == 1));
    match try_unwrap_group(&ident("a")) {
        Err(error) => assert_eq!(error.message, "#[nutype] expected group"),
        Ok(_) => panic!("expected a diagnostic"),
    }
}

#[test]
fn names_resolve_to_capabilities() {
    let cases = [
        ("Debug", DeriveTrait::Debug),
        ("Display", DeriveTrait::Display),
        ("Clone", DeriveTrait::Clone),
        ("Copy", DeriveTrait::Copy),
        ("PartialEq", DeriveTrait::PartialEq),
        ("Eq", DeriveTrait::Eq),
        ("PartialOrd", DeriveTrait::PartialOrd),
        ("Ord", DeriveTrait::Ord),
        ("FromStr", DeriveTrait::FromStr),
        ("AsRef", DeriveTrait::AsRef),
        ("Deref", DeriveTrait::Deref),
        ("TryFrom", DeriveTrait::TryFrom),
        ("From", DeriveTrait::From),
        ("Into", DeriveTrait::Into),
        ("Hash", DeriveTrait::Hash),
        ("Borrow", DeriveTrait::Borrow),
        ("Default", DeriveTrait::Default),
        ("Serialize", DeriveTrait::SerdeSerialize),
        ("Deserialize", DeriveTrait::SerdeDeserialize),
        ("JsonSchema", DeriveTrait::SchemarsJsonSchema),
        ("Arbitrary", DeriveTrait::ArbitraryArbitrary),
    ];
    for (name, expected) in cases {
        let word = Ident { name: name.to_string(), span: span() };
        match parse_ident_into_derive_trait(&word, all_on()) {
            Ok(spanned) => assert_eq!(spanned.item, expected),
            Err(_) => panic!("expected a capability"),
        }
    }
}

#[test]
fn capability_behind_a_feature_that_is_off_names_the_feature() {
    let expect = |name: &str, message: &str| {
        let word = Ident { name: name.to_string(), span: span() };
        match parse_ident_into_derive_trait(&word, all_off()) {
            Err(error) => {
                assert_eq!(error.kind, ConfigErrorKind::FeatureRequired);
                assert_eq!(error.message, message);
            }
            Ok(_) => panic!("expected a diagnostic"),
        }
    };
    expect(
        "Serialize",
        "To derive Serialize, the feature `serde` of the crate `nutype` needs to be enabled.",
    );
    expect(
        "Deserialize",
        "To derive Deserialize, the feature `serde` of the crate `nutype` needs to be enabled.",
    );
    expect(
        "JsonSchema",
        "To derive JsonSchema, the feature `schemars08` of the crate `nutype` needs to be enabled.",
    );
    expect(
        "Arbitrary",
        "To derive Arbitrary, the feature `arbitrary` of the crate `nutype` needs to be enabled.",
    );
}

#[test]
fn unknown_name_is_no_capability() {
    let word = Ident { name: "Frobnicate".to_string(), span: span() };
    match parse_ident_into_derive_trait(&word, all_on()) {
        Err(error) => {
            assert_eq!(error.kind, ConfigErrorKind::UnsupportedCapability);
            assert_eq!(error.message, "unsupported trait derive: Frobnicate");
        }
        Ok(_) => panic!("expected a diagnostic"),
    }
}

#[test]
fn tokens_of_a_derivation_list() {
    assert!(matches!(parse_token_into_derive_trait(&punct(','), all_on()), Ok(None)));
    assert!(matches!(
        parse_token_into_derive_trait(&ident("Eq"), all_on()),
        Ok(Some(spanned)) if spanned.item == DeriveTrait::Eq
    ));
    match parse_token_into_derive_trait(&punct('*'), all_on()) {
        Err(error) => assert_eq!(error.message, "Asterisk derive is not longer supported"),
        Ok(_) => panic!("expected a diagnostic"),
    }
    match parse_token_into_derive_trait(&punct('+'), all_on()) {
        Err(error) => assert_eq!(error.message, "Unexpected `+`"),
        Ok(_) => panic!("expected a diagnostic"),
    }
    match parse_token_into_derive_trait(&literal("3"), all_on()) {
        Err(error) => assert_eq!(error.message, "Unexpected `3`"),
        Ok(_) => panic!("expected a diagnostic"),
    }
    match parse_token_into_derive_trait(&group(vec![ident("Eq")]), all_on()) {
        Err(error) => assert_eq!(error.message, "Unexpected `(...)`"),
        Ok(_) => panic!("expected a diagnostic"),
    }
}

fn derive_attr(tokens: Vec<Token>) -> Attribute {
    Attribute { path: vec!["derive".to_string()], meta: AttributeMeta::List(tokens) }
}

fn items(parsed: Result<Vec<nutype_macros::models::Spanned<DeriveTrait>>, ConfigError>) -> Vec<DeriveTrait> {
    match parsed {
        Ok(list) => list.into_iter().map(|spanned| spanned.item).collect(),
        Err(error) => panic!("unexpected diagnostic: {}", error.message),
    }
}

#[test]
fn derivation_lists_are_read_in_order() {
    let attr = derive_attr(vec![ident("Debug"), punct(','), ident("Clone"), punct(','), ident("Debug")]);
    assert!(is_derive_attribute(&attr));
    assert!(!is_doc_attribute(&attr));
    assert_eq!(
        items(parse_derive_attr(&attr, all_on())),
        vec![DeriveTrait::Debug, DeriveTrait::Clone, DeriveTrait::Debug]
    );

    let doc = Attribute {
        path: vec!["doc".to_string()],
        meta: AttributeMeta::NameValue("doc = \"A width.\"".to_string()),
    };
    assert!(is_doc_attribute(&doc));
    assert!(!is_derive_attribute(&doc));
    let empty = Attribute { path: vec![], meta: AttributeMeta::Path(String::new()) };
    assert!(!is_doc_attribute(&empty));
    assert!(!is_derive_attribute(&empty));

    let attributes = vec![
        doc,
        derive_attr(vec![ident("Eq"), punct(',')]),
        Attribute { path: vec!["allow".to_string()], meta: AttributeMeta::List(vec![punct('*')]) },
        derive_attr(vec![ident("Hash"), punct(','), ident("Into")]),
    ];
    assert_eq!(
        items(parse_derive_traits(&attributes, all_on())),
        vec![DeriveTrait::Eq, DeriveTrait::Hash, DeriveTrait::Into]
    );
}

#[test]
fn derivation_attribute_must_be_a_list() {
    let bare = Attribute {
        path: vec!["derive".to_string()],
        meta: AttributeMeta::Path("derive".to_string()),
    };
    match parse_derive_attr(&bare, all_on()) {
        Err(error) => {
            assert_eq!(error.kind, ConfigErrorKind::Syntax);
            assert_eq!(error.message, "Expected #[derive(...)], got: derive");
        }
        Ok(_) => panic!("expected a diagnostic"),
    }
    let valued = Attribute {
        path: vec!["derive".to_string()],
        meta: AttributeMeta::NameValue("derive = 1".to_string()),
    };
    match parse_derive_attr(&valued, all_on()) {
        Err(error) => assert_eq!(error.message, "Expected #[derive(...)], got: derive = 1"),
        Ok(_) => panic!("expected a diagnostic"),
    }
    let broken = vec![derive_attr(vec![ident("Eq"), punct('*'), ident("Nope")])];
    match parse_derive_traits(&broken, all_on()) {
        Err(error) => assert_eq!(error.message, "Asterisk derive is not longer supported"),
        Ok(_) => panic!("expected a diagnostic"),
    }
}

fn names(content: &[Token]) -> Result<Vec<String>, ConfigError> {
    let mut found = Vec::new();
    for token in content {
        match token {
            Token::Ident(ident) if ident.name == "bad" => {
                return Err(ConfigError {
                    kind: ConfigErrorKind::Syntax,
                    span: ident.span,
                    message: "bad rule".to_string(),
                });
            }
            Token::Ident(ident) => found.push(ident.name.clone()),
            _ => {}
        }
    }
    Ok(found)
}

fn lengths(content: &[Token]) -> Result<Vec<usize>, ConfigError> {
    Ok(vec![content.len()])
}

#[test]
fn options_of_a_wrapper_are_read() {
    let input = vec![
        ident("sanitize"),
        group(vec![ident("first")]),
        ident("new_unchecked"),
        ident("validate"),
        group(vec![ident("min"), punct('='), literal("0")]),
        ident("default"),
        punct('='),
        literal("1.5"),
        ident("sanitize"),
        group(vec![ident("second"), punct(','), ident("third")]),
    ];
    match parse_nutype_attributes(&input, all_on(), names, lengths) {
        Ok(attributes) => {
            assert_eq!(attributes.new_unchecked, NewUnchecked::On);
            assert_eq!(attributes.sanitizers, vec!["second".to_string(), "third".to_string()]);
            assert_eq!(attributes.validators, vec![3]);
            assert_eq!(attributes.maybe_default_value.map(name_of), Some("1.5"));
        }
        Err(error) => panic!("unexpected diagnostic: {}", error.message),
    }
    match parse_nutype_attributes(&vec![], all_off(), names, lengths) {
        Ok(attributes) => {
            assert_eq!(attributes.new_unchecked, NewUnchecked::Off);
            assert!(attributes.sanitizers.is_empty());
            assert!(attributes.validators.is_empty());
            assert!(attributes.maybe_default_value.is_none());
        }
        Err(_) => panic!("expected no options"),
    }
}

#[test]
fn rule_parsers_run_in_turn_and_the_first_error_stops() {
    let calls = std::cell::RefCell::new(Vec::new());
    let sanitize = |content: &[Token]| {
        calls.borrow_mut().push(format!("sanitize:{}", content.len()));
        names(content)
    };
    let validate = |content: &[Token]| {
        calls.borrow_mut().push(format!("validate:{}", content.len()));
        names(content)
    };
    let input = vec![
        ident("sanitize"),
        group(vec![ident("trim"), punct(','), ident("lower")]),
        ident("validate"),
        group(vec![ident("present")]),
    ];
    match parse_nutype_attributes(&input, all_on(), &sanitize, &validate) {
        Ok(attributes) => {
            assert_eq!(attributes.sanitizers, vec!["trim".to_string(), "lower".to_string()]);
            assert_eq!(attributes.validators, vec!["present".to_string()]);
        }
        Err(error) => panic!("unexpected diagnostic: {}", error.message),
    }
    assert_eq!(*calls.borrow(), vec!["sanitize:3".to_string(), "validate:1".to_string()]);

    calls.borrow_mut().clear();
    let failing = vec![
        ident("sanitize"),
        group(vec![ident("bad")]),
        ident("validate"),
        group(vec![ident("present")]),
        ident("colour"),
    ];
    match parse_nutype_attributes(&failing, all_on(), &sanitize, &validate) {
        Err(error) => assert_eq!(error.message, "bad rule"),
        Ok(_) => panic!("expected the parser's diagnostic"),
    }
    assert_eq!(*calls.borrow(), vec!["sanitize:1".to_string()]);

    calls.borrow_mut().clear();
    let later = vec![
        ident("sanitize"),
        group(vec![ident("trim")]),
        ident("colour"),
        ident("validate"),
        group(vec![ident("bad")]),
    ];
    match parse_nutype_attributes(&later, all_on(), &sanitize, &validate) {
        Err(error) => assert_eq!(error.message, "Unknown #[nutype] option: `colour`"),
        Ok(_) => panic!("expected a diagnostic"),
    }
    assert_eq!(*calls.borrow(), vec!["sanitize:1".to_string()]);
}

fn option_error(input: Vec<Token>, features: Features) -> ConfigError {
    match parse_nutype_attributes(&input, features, names, lengths) {
        Err(error) => error,
        Ok(_) => panic!("expected a diagnostic"),
    }
}

#[test]
fn ill_formed_options_are_reported() {
    let error = option_error(vec![ident("colour")], all_on());
    assert_eq!(error.kind, ConfigErrorKind::UnknownOption);
    assert_eq!(error.message, "Unknown #[nutype] option: `colour`");

    let error = option_error(vec![punct(',')], all_on());
    assert_eq!(error.message, "#[nutype] expected ident");

    let error = option_error(vec![ident("sanitize")], all_on());
    assert_eq!(
        error.message,
        "`sanitize` must be used with parenthesis.\nFor example:\n\n    sanitize(trim)\n\n"
    );
    let error = option_error(vec![ident("validate")], all_on());
    assert_eq!(
        error.message,
        "`validate` must be used with parenthesis.\nFor example:\n\n    validate(max = 99)\n\n"
    );
    let error = option_error(vec![ident("validate"), ident("max")], all_on());
    assert_eq!(error.message, "#[nutype] expected group");

    let error = option_error(vec![ident("default")], all_on());
    assert_eq!(error.message, "Invalid syntax for `default`. Missing `=`");
    let error = option_error(vec![ident("default"), punct(','), literal("1")], all_on());
    assert_eq!(error.message, "Invalid syntax for `default`. Expected `=`");
    let error = option_error(vec![ident("default"), punct('=')], all_on());
    assert_eq!(error.message, "Missing default value");

    let error = option_error(vec![ident("new_unchecked")], all_off());
    assert_eq!(error.kind, ConfigErrorKind::FeatureRequired);
    assert!(error.message.contains("the feature `new_unchecked`"));
    let error = option_error(vec![ident("new_unchecked"), group(vec![])], all_on());
    assert_eq!(error.message, "new_unchecked does not support any options");
}

#[test]
fn option_words_are_told_apart() {
    assert!(matches!(option_word("sanitize", span(), all_off()), Ok(OptionWord::Sanitize)));
    assert!(matches!(option_word("validate", span(), all_off()), Ok(OptionWord::Validate)));
    assert!(matches!(option_word("default", span(), all_off()), Ok(OptionWord::Default)));
    assert!(matches!(option_word("new_unchecked", span(), all_on()), Ok(OptionWord::NewUnchecked)));
    match option_word("new_unchecked", span(), all_off()) {
        Err(error) => {
            assert_eq!(error.kind, ConfigErrorKind::FeatureRequired);
            assert!(error.message.starts_with(
                "To generate ::new_unchecked() function, the feature `new_unchecked`"
            ));
        }
        Ok(_) => panic!("expected a diagnostic"),
    }
    match option_word("colour", span(), all_on()) {
        Err(error) => {
            assert_eq!(error.kind, ConfigErrorKind::UnknownOption);
            assert_eq!(error.message, "Unknown attribute `colour`");
        }
        Ok(_) => panic!("expected a diagnostic"),
    }
}

#[test]
fn underscores_are_taken_out_of_numbers() {
    assert_eq!(sanitize_number("1_000_000"), "1000000");
    assert_eq!(sanitize_number("__"), "");
    assert_eq!(sanitize_number("42"), "42");
    assert_eq!(sanitize_number("-1_0.5_"), "-10.5");
}

#[test]
fn numbers_are_read_with_their_sign() {
    let tokens = vec![punct('='), punct('-'), literal("1_000"), punct(','), literal("7")];
    match read_number(&tokens, 1) {
        Ok((text, _, next)) => {
            assert_eq!(text, "-1_000");
            assert_eq!(next, 3);
        }
        Err(_) => panic!("expected a number"),
    }
    match read_number(&tokens, 4) {
        Ok((text, _, next)) => {
            assert_eq!(text, "7");
            assert_eq!(next, 5);
        }
        Err(_) => panic!("expected a number"),
    }
    match read_number(&tokens, 3) {
        Ok((text, _, next)) => {
            assert_eq!(text, ",");
            assert_eq!(next, 4);
        }
        Err(_) => panic!("expected the text of the token"),
    }
    let grouped = vec![punct('='), group(vec![literal("5")])];
    match read_number(&grouped, 1) {
        Ok((text, _, next)) => {
            assert_eq!(text, "(...)");
            assert_eq!(next, 2);
        }
        Err(_) => panic!("expected the text of the token"),
    }
    match parse_value_as_number(&grouped, 0) {
        Err(error) => assert_eq!(error.message, "Expected i64, got `(...)`"),
        Ok(_) => panic!("expected a diagnostic"),
    }
    assert!(matches!(parse_value_as_number(&tokens, 0), Ok((-1000, 3))));
    let wrong = vec![punct('='), ident("many")];
    match parse_value_as_number(&wrong, 0) {
        Err(error) => {
            assert_eq!(error.kind, ConfigErrorKind::Syntax);
            assert_eq!(error.message, "Expected i64, got `many`");
        }
        Ok(_) => panic!("expected a diagnostic"),
    }
}

#[test]
fn literals_are_parsed_as_integers() {
    let lit = Literal { text: "9_223_372_036_854_775_807".to_string(), span: span() };
    assert!(matches!(parse_integer(false, &lit), Ok((i64::MAX, _))));
    match parse_integer(true, &Literal { text: "9_223_372_036_854_775_808".to_string(), span: span() }) {
        Ok((value, _)) => assert_eq!(value, i64::MIN),
        Err(_) => panic!("expected the least number"),
    }
    match parse_number(false, &Literal { text: "9_223_372_036_854_775_808".to_string(), span: span() }) {
        Err(error) => assert_eq!(error.message, "Expected i64, got `9223372036854775808`"),
        Ok(_) => panic!("expected a diagnostic"),
    }
    match parse_number(true, &Literal { text: "1.5".to_string(), span: span() }) {
        Err(error) => assert_eq!(error.message, "Expected i64, got `-1.5`"),
        Ok(_) => panic!("expected a diagnostic"),
    }
    assert!(matches!(number_or_error(Some(3u8), "u8", "3", span()), Ok(3)));
    match number_or_error(None::<u8>, "u8", "300", span()) {
        Err(error) => assert_eq!(error.message, "Expected u8, got `300`"),
        Ok(_) => panic!("expected a diagnostic"),
    }
}

#[test]
fn expression_after_with_is_the_rest() {
    let tokens = vec![punct('='), punct('|'), ident("x"), punct('|'), ident("x")];
    match parse_with_token_stream(&tokens, span()) {
        Ok(rest) => {
            assert_eq!(rest.len(), 4);
            assert_eq!(name_of(&rest[1]), "x");
        }
        Err(_) => panic!("expected the expression"),
    }
    match parse_with_token_stream(&vec![], span()) {
        Err(error) => assert_eq!(error.message, "Invalid syntax for `with`. Missing `=`"),
        Ok(_) => panic!("expected a diagnostic"),
    }
    match parse_with_token_stream(&vec![ident("x")], span()) {
        Err(error) => assert_eq!(error.message, "Invalid syntax for `with`. Expected `=`"),
        Ok(_) => panic!("expected a diagnostic"),
    }
}

#[test]
fn pieces_between_commas_are_parsed_in_turn() {
    let tokens = vec![
        punct(','),
        ident("a"),
        ident("b"),
        punct(','),
        punct(','),
        ident("c"),
        punct(','),
    ];
    let joined = |piece: &[Token]| -> Result<String, ConfigError> {
        Ok(piece.iter().map(name_of).collect::<Vec<_>>().join("+"))
    };
    let pieces = split_and_parse(&tokens, is_comma, joined);
    assert!(matches!(pieces, Ok(found) if found == vec!["a+b".to_string(), "c".to_string()]));
    assert!(matches!(split_and_parse(&vec![], is_comma, joined), Ok(found) if found.is_empty()));
    assert!(matches!(
        split_and_parse(&vec![punct(','), punct(',')], is_comma, joined),
        Ok(found) if found.is_empty()
    ));

    let counted = split_and_parse(&tokens, is_comma, |piece: &[Token]| Ok(piece.len()));
    assert!(matches!(counted, Ok(found) if found == vec![2, 1]));
    let at_b = |token: &Token| name_of(token) == "b";
    let around_b = split_and_parse(&tokens, at_b, |piece: &[Token]| Ok(piece.len()));
    assert!(matches!(around_b, Ok(found) if found == vec![2, 4]));

    let failing = split_and_parse(&tokens, is_comma, |piece: &[Token]| {
        if piece.len() == 1 {
            Err(ConfigError {
                kind: ConfigErrorKind::Syntax,
                span: Span::call_site(),
                message: name_of(&piece[0]).to_string(),
            })
        } else {
            Ok(piece.len())
        }
    });
    match failing {
        Err(error) => assert_eq!(error.message, "c"),
        Ok(_) => panic!("expected a diagnostic"),
    }
}

#[test]
fn parsed_attributes_start_empty() {
    let attrs: ParseableAttributes<u8, u8> = ParseableAttributes::default();
    assert!(attrs.sanitizers.is_empty());
    assert!(attrs.validators.is_empty());
    assert_eq!(attrs.new_unchecked, NewUnchecked::Off);
    assert_eq!(attrs.default, None);
}

fn integer(negative: bool, text: &str) -> Option<i64> {
    let literal = Literal { text: text.to_string(), span: span() };
    parse_number(negative, &literal).ok().map(|(value, _)| value)
}

#[test]
fn integers_are_an_optional_sign_and_digits() {
    assert_eq!(integer(false, "0"), Some(0));
    assert_eq!(integer(true, "0"), Some(0));
    assert_eq!(integer(false, "0012"), Some(12));
    assert_eq!(integer(false, "+7"), Some(7));
    assert_eq!(integer(false, "-7"), Some(-7));
    assert_eq!(integer(true, "4_2"), Some(-42));
    assert_eq!(integer(false, ""), None);
    assert_eq!(integer(true, ""), None);
    assert_eq!(integer(false, "+"), None);
    assert_eq!(integer(true, "-5"), None);
    assert_eq!(integer(true, "+5"), None);
    assert_eq!(integer(false, " 5"), None);
    assert_eq!(integer(false, "5 "), None);
    assert_eq!(integer(false, "5x"), None);
    assert_eq!(integer(false, "0x10"), None);
    assert_eq!(integer(false, "1.0"), None);
    assert_eq!(integer(false, "\u{0663}"), None);
    assert_eq!(integer(false, "9223372036854775807"), Some(i64::MAX));
    assert_eq!(integer(false, "9223372036854775808"), None);
    assert_eq!(integer(true, "9223372036854775808"), Some(i64::MIN));
    assert_eq!(integer(true, "9223372036854775809"), None);
}
