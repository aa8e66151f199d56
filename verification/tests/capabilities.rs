use nutype_macros::gen::{
    gen_error_type_name, gen_module_name_for_type, gen_nutype_for_float, gen_sanitize_fn,
    gen_validate_fn, gen_validation_error_type, Constructor, ErrorVariant, Rejection, Visibility,
};
use nutype_macros::models::{
    AnyDeriveTrait, ConfigErrorKind, FloatType, Guard, InnerCategory, InnerType, Sanitizer,
    Validator,
};
use nutype_macros::traits::{
    gen_implemented_traits, gen_traits, split_into_generatable_traits, AnyGeneratableTrait,
    AnyIrregularTrait, AnyTransparentTrait, ImplForm,
};

fn float_inner() -> InnerType {
    InnerType { name: "f64".to_string(), category: InnerCategory::Float }
}

fn infallible() -> Guard {
    Guard::WithoutValidation { sanitizers: vec![] }
}

fn fallible() -> Guard {
    Guard::WithValidation {
        sanitizers: vec![Sanitizer::Clamp { min: -1000, max: 1000 }],
        validators: vec![Validator::Min(0), Validator::Max(100)],
    }
}

#[test]
fn capabilities_resolve_by_the_fixed_table() {
    assert_eq!(
        AnyGeneratableTrait::from(AnyDeriveTrait::Debug),
        AnyGeneratableTrait::Transparent(AnyTransparentTrait::Debug)
    );
    assert_eq!(
        AnyGeneratableTrait::from(AnyDeriveTrait::DieselNewType),
        AnyGeneratableTrait::Transparent(AnyTransparentTrait::DieselNewType)
    );
    assert_eq!(
        AnyGeneratableTrait::from(AnyDeriveTrait::Default),
        AnyGeneratableTrait::Irregular(AnyIrregularTrait::Default)
    );
    assert_eq!(
        AnyGeneratableTrait::from(AnyDeriveTrait::ArbitraryArbitrary),
        AnyGeneratableTrait::Irregular(AnyIrregularTrait::ArbitraryArbitrary)
    );
    assert_eq!(AnyTransparentTrait::Hash.to_tokens(), "Hash");
    assert_eq!(
        AnyTransparentTrait::DieselNewType.to_tokens(),
        "::diesel_derive_newtype::DieselNewType"
    );
}

#[test]
fn split_is_a_partition_in_order() {
    let halves = split_into_generatable_traits(vec![
        AnyDeriveTrait::Display,
        AnyDeriveTrait::Debug,
        AnyDeriveTrait::FromStr,
        AnyDeriveTrait::Ord,
        AnyDeriveTrait::Hash,
    ]);
    assert_eq!(
        halves.transparent_traits,
        vec![AnyTransparentTrait::Debug, AnyTransparentTrait::Ord, AnyTransparentTrait::Hash]
    );
    assert_eq!(
        halves.irregular_traits,
        vec![AnyIrregularTrait::Display, AnyIrregularTrait::FromStr]
    );
}

#[test]
fn default_without_a_value_fails_and_names_the_option() {
    let outcome = gen_traits(
        "Width",
        &float_inner(),
        None,
        vec![AnyDeriveTrait::Debug, AnyDeriveTrait::Default],
        None,
        &infallible(),
    );
    match outcome {
        Err(error) => {
            assert_eq!(error.kind, ConfigErrorKind::MissingOption);
            assert_eq!(
                error.message,
                "Default trait is derived for type Width, but `default = ` is missing"
            );
            assert!(error.message.contains("default"));
        }
        Ok(_) => panic!("expected a diagnostic"),
    }
}

#[test]
fn default_with_a_value_is_assembled() {
    let outcome = gen_traits(
        "Width",
        &float_inner(),
        Some("WidthError".to_string()),
        vec![AnyDeriveTrait::Default, AnyDeriveTrait::Clone, AnyDeriveTrait::TryFrom],
        Some("1.5".to_string()),
        &fallible(),
    );
    match outcome {
        Ok(generated) => {
            assert_eq!(generated.derive_transparent_traits, vec![AnyTransparentTrait::Clone]);
            assert_eq!(generated.implement_traits.len(), 2);
            assert_eq!(generated.implement_traits[0].wrapper_name, "Width");
            match &generated.implement_traits[0].form {
                ImplForm::Default { value, has_validation } => {
                    assert_eq!(value, "1.5");
                    assert!(*has_validation);
                }
                _ => panic!("expected the default block"),
            }
            match &generated.implement_traits[1].form {
                ImplForm::TryFrom { inner_type, error_type } => {
                    assert_eq!(inner_type.name, "f64");
                    assert_eq!(error_type.as_deref(), Some("WidthError"));
                }
                _ => panic!("expected the conversion block"),
            }
            assert_eq!(generated.implement_traits[1].form.capability(), AnyIrregularTrait::TryFrom);
        }
        Err(_) => panic!("expected the capabilities"),
    }
}

#[test]
fn arbitrary_is_refused_for_a_validating_wrapper() {
    let refused = gen_implemented_traits(
        "Width",
        &float_inner(),
        Some("WidthError".to_string()),
        vec![AnyIrregularTrait::Display, AnyIrregularTrait::ArbitraryArbitrary],
        None,
        &fallible(),
    );
    match refused {
        Err(error) => {
            assert_eq!(error.kind, ConfigErrorKind::UnsupportedCapability);
            assert!(error
                .message
                .starts_with("Cannot derive trait `Arbitrary` for a custom type `Width`"));
        }
        Ok(_) => panic!("expected a diagnostic"),
    }
    let granted = gen_implemented_traits(
        "Width",
        &float_inner(),
        None,
        vec![AnyIrregularTrait::ArbitraryArbitrary],
        None,
        &infallible(),
    );
    assert!(matches!(granted, Ok(blocks) if blocks.len() == 1));
}

#[test]
fn error_type_has_one_variant_per_validator_in_order() {
    let validators = vec![
        Validator::Max(100),
        Validator::Custom("|x| true".to_string()),
        Validator::Min(0),
    ];
    let error_type = gen_validation_error_type("Width", &validators);
    assert_eq!(error_type.name, "WidthError");
    assert_eq!(
        error_type.variants,
        vec![ErrorVariant::TooBig, ErrorVariant::Invalid, ErrorVariant::TooSmall]
    );
    assert_eq!(ErrorVariant::TooBig.name(), "TooBig");
    assert_eq!(ErrorVariant::TooSmall.description(), "too small");
    assert_eq!(ErrorVariant::Invalid.description(), "invalid");
    assert_eq!(gen_error_type_name("Ratio"), "RatioError");
    assert_eq!(gen_module_name_for_type("Ratio"), "__nutype_private_Ratio__");
}

#[test]
fn sanitize_and_validate_functions_follow_the_rules() {
    let sanitizers = vec![
        Sanitizer::Clamp { min: 1, max: 2 },
        Sanitizer::Custom("|x| x".to_string()),
    ];
    let sanitize = gen_sanitize_fn(FloatType::F32, &sanitizers);
    assert_eq!(sanitize.value_type, FloatType::F32);
    assert_eq!(sanitize.steps.len(), 2);
    assert!(matches!(sanitize.steps[0], Sanitizer::Clamp { min: 1, max: 2 }));
    assert!(matches!(&sanitize.steps[1], Sanitizer::Custom(e) if e == "|x| x"));

    let validators = vec![Validator::Min(3), Validator::Max(9)];
    let validate = gen_validate_fn("Width", FloatType::F32, &validators);
    assert_eq!(validate.error_type, "WidthError");
    assert_eq!(validate.checks.len(), 2);
    assert!(matches!(validate.checks[0].validator, Validator::Min(3)));
    assert_eq!(validate.checks[0].rejects, Rejection::Below(3));
    assert_eq!(validate.checks[0].variant, ErrorVariant::TooSmall);
    assert!(matches!(validate.checks[1].validator, Validator::Max(9)));
    assert_eq!(validate.checks[1].rejects, Rejection::Above(9));
    assert_eq!(validate.checks[1].variant, ErrorVariant::TooBig);
    let custom = vec![Validator::Custom("|x| true".to_string())];
    let refused = gen_validate_fn("Width", FloatType::F32, &custom);
    assert_eq!(refused.checks[0].rejects, Rejection::Refused);
    assert_eq!(refused.checks[0].variant, ErrorVariant::Invalid);
}

#[test]
fn fallible_wrapper_gets_an_error_type_and_its_import() {
    let emitted = gen_nutype_for_float(
        vec!["/// A width.".to_string()],
        Visibility::Public,
        FloatType::F64,
        "Width",
        fallible(),
        vec![AnyDeriveTrait::Debug, AnyDeriveTrait::Display, AnyDeriveTrait::PartialEq],
        None,
    );
    match emitted {
        Ok(artifact) => {
            assert_eq!(artifact.module_name, "__nutype_private_Width__");
            assert_eq!(artifact.doc_attrs, vec!["/// A width.".to_string()]);
            assert_eq!(artifact.wrapper_name, "Width");
            assert_eq!(artifact.inner_type.name, "f64");
            assert!(matches!(artifact.visibility, Visibility::Public));
            assert_eq!(
                artifact.derive_traits,
                vec![AnyTransparentTrait::Debug, AnyTransparentTrait::PartialEq]
            );
            assert_eq!(artifact.implement_traits.len(), 1);
            assert!(matches!(artifact.implement_traits[0].form, ImplForm::Display));
            assert_eq!(artifact.error_type_import.as_deref(), Some("WidthError"));
            assert_eq!(artifact.implementation.methods.wrapper_name, "Width");
            assert_eq!(artifact.implementation.methods.inner_type, FloatType::F64);
            match artifact.implementation.constructor {
                Constructor::Fallible { sanitize, validate, error_type, .. } => {
                    assert_eq!(sanitize.steps.len(), 1);
                    assert_eq!(validate.checks.len(), 2);
                    assert_eq!(error_type.name, "WidthError");
                    assert_eq!(
                        error_type.variants,
                        vec![ErrorVariant::TooSmall, ErrorVariant::TooBig]
                    );
                }
                _ => panic!("expected a fallible constructor"),
            }
        }
        Err(_) => panic!("expected an artifact"),
    }
}

#[test]
fn infallible_wrapper_has_no_error_type() {
    let emitted = gen_nutype_for_float(
        vec![],
        Visibility::Inherited,
        FloatType::F32,
        "Ratio",
        Guard::WithoutValidation { sanitizers: vec![Sanitizer::Clamp { min: 0, max: 1 }] },
        vec![AnyDeriveTrait::Default],
        Some("0.5".to_string()),
    );
    match emitted {
        Ok(artifact) => {
            assert_eq!(artifact.error_type_import, None);
            assert_eq!(artifact.inner_type.name, "f32");
            match &artifact.implementation.constructor {
                Constructor::Infallible { wrapper_name, inner_type, sanitize } => {
                    assert_eq!(wrapper_name, "Ratio");
                    assert_eq!(*inner_type, FloatType::F32);
                    assert_eq!(sanitize.steps.len(), 1);
                }
                _ => panic!("expected an infallible constructor"),
            }
            match &artifact.implement_traits[0].form {
                ImplForm::Default { value, has_validation } => {
                    assert_eq!(value, "0.5");
                    assert!(!*has_validation);
                }
                _ => panic!("expected the default block"),
            }
        }
        Err(_) => panic!("expected an artifact"),
    }
}

#[test]
fn generation_fails_whole_when_a_block_cannot_be_assembled() {
    let emitted = gen_nutype_for_float(
        vec![],
        Visibility::Restricted("crate".to_string()),
        FloatType::F64,
        "Width",
        infallible(),
        vec![AnyDeriveTrait::Debug, AnyDeriveTrait::Default],
        None,
    );
    match emitted {
        Err(error) => assert_eq!(error.kind, ConfigErrorKind::MissingOption),
        Ok(_) => panic!("expected a diagnostic"),
    }
}
