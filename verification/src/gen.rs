//! The code assembler for wrappers of floating-point numbers, and the
//! generator of their error types. The emitted artifact is a tree of plain
//! data, each fragment of which can be looked at on its own.

use vstd::prelude::*;
use crate::models::{
    copy_name, AnyDeriveTrait, ConfigError, FloatType, Guard, InnerCategory, InnerType, Sanitizer,
    Validator,
};
use crate::text::join3;
use crate::traits::{
    blocks_assemble, blocks_match, gen_traits, irregular_part, is_block_error, transparent_part,
    AnyTransparentTrait, GeneratedTraits, ImplBlock,
};

verus! {

/// One variant of an error type: which rule was violated.
#[derive(Clone, Copy, Debug, PartialEq, Eq, Structural)]
pub enum ErrorVariant {
    TooSmall,
    TooBig,
    Invalid,
}

/// The variant that reports a violation of the validator.
pub open spec fn error_variant_of(validator: Validator) -> ErrorVariant {
    match validator {
        Validator::Min(_) => ErrorVariant::TooSmall,
        Validator::Max(_) => ErrorVariant::TooBig,
        Validator::Custom(_) => ErrorVariant::Invalid,
    }
}

impl ErrorVariant {
    /// The variant that reports a violation of the validator.
    pub fn of(validator: &Validator) -> (variant: ErrorVariant)
        ensures
            variant == error_variant_of(*validator),
    {
        match validator {
            Validator::Min(_) => ErrorVariant::TooSmall,
            Validator::Max(_) => ErrorVariant::TooBig,
            Validator::Custom(_) => ErrorVariant::Invalid,
        }
    }

    pub open spec fn spec_name(&self) -> Seq<char> {
        match self {
            ErrorVariant::TooSmall => "TooSmall"@,
            ErrorVariant::TooBig => "TooBig"@,
            ErrorVariant::Invalid => "Invalid"@,
        }
    }

    /// The variant's name in the emitted enum.
    pub fn name(&self) -> (text: &'static str)
        ensures
            text@ == self.spec_name(),
    {
        match self {
            ErrorVariant::TooSmall => "TooSmall",
            ErrorVariant::TooBig => "TooBig",
            ErrorVariant::Invalid => "Invalid",
        }
    }

    pub open spec fn spec_description(&self) -> Seq<char> {
        match self {
            ErrorVariant::TooSmall => "too small"@,
            ErrorVariant::TooBig => "too big"@,
            ErrorVariant::Invalid => "invalid"@,
        }
    }

    /// What the variant says to a reader. It depends on the violated rule
    /// alone, never on the value.
    pub fn description(&self) -> (text: &'static str)
        ensures
            text@ == self.spec_description(),
    {
        match self {
            ErrorVariant::TooSmall => "too small",
            ErrorVariant::TooBig => "too big",
            ErrorVariant::Invalid => "invalid",
        }
    }
}

/// The error type of a fallible wrapper: a closed enum with one variant per
/// validator, in declaration order.
#[derive(Debug)]
pub struct ErrorType {
    pub name: String,
    pub variants: Vec<ErrorVariant>,
}

/// The name of a wrapper's error type.
pub open spec fn error_name_of(wrapper_name: Seq<char>) -> Seq<char> {
    wrapper_name + "Error"@
}

/// The name of the private module that holds a wrapper.
pub open spec fn module_name_of(wrapper_name: Seq<char>) -> Seq<char> {
    "__nutype_private_"@ + wrapper_name + "__"@
}

/// The name of a wrapper's error type: the wrapper's name and a fixed
/// suffix.
pub fn gen_error_type_name(wrapper_name: &str) -> (name: String)
    ensures
        name@ == error_name_of(wrapper_name@),
{
    let mut name = String::from_str(wrapper_name);
    name.append("Error");
    name
}

/// The name of the private module that holds a wrapper.
pub fn gen_module_name_for_type(wrapper_name: &str) -> (name: String)
    ensures
        name@ == module_name_of(wrapper_name@),
{
    join3("__nutype_private_", wrapper_name, "__")
}

/// The variants match the validators one for one, in order.
pub open spec fn variants_match(variants: Seq<ErrorVariant>, validators: Seq<Validator>) -> bool {
    &&& variants.len() == validators.len()
    &&& forall|i: int|
        0 <= i < variants.len() ==> #[trigger] variants[i] == error_variant_of(validators[i])
}

/// Builds the error type of a wrapper from its validators.
pub fn gen_validation_error_type(wrapper_name: &str, validators: &Vec<Validator>) -> (error_type:
    ErrorType)
    ensures
        error_type.name@ == error_name_of(wrapper_name@),
        variants_match(error_type.variants@, validators@),
{
    let mut variants: Vec<ErrorVariant> = Vec::new();
    let mut i: usize = 0;
    while i < validators.len()
        invariant
            i <= validators@.len(),
            variants_match(variants@, validators@.take(i as int)),
        decreases validators@.len() - i,
    {
        variants.push(ErrorVariant::of(&validators[i]));
        i += 1;
    }
    assert(validators@.take(i as int) =~= validators@);
    ErrorType { name: gen_error_type_name(wrapper_name), variants }
}

/// The function that runs every sanitizer, in declaration order, on a value
/// of `value_type`.
#[derive(Debug)]
pub struct SanitizeFn {
    pub value_type: FloatType,
    pub steps: Vec<Sanitizer>,
}

/// When a check rejects a value: where the value is below a bound, where
/// it is above a bound, or where the developer's predicate refuses it. A
/// value that equals the bound is neither below nor above it.
#[derive(Clone, Copy, Debug, PartialEq, Eq, Structural)]
pub enum Rejection {
    Below(i64),
    Above(i64),
    Refused,
}

/// When the check of a validator rejects.
pub open spec fn rejection_of(validator: Validator) -> Rejection {
    match validator {
        Validator::Min(bound) => Rejection::Below(bound),
        Validator::Max(bound) => Rejection::Above(bound),
        Validator::Custom(_) => Rejection::Refused,
    }
}

impl Rejection {
    /// When the check of a validator rejects.
    pub fn of(validator: &Validator) -> (rejection: Rejection)
        ensures
            rejection == rejection_of(*validator),
    {
        match validator {
            Validator::Min(bound) => Rejection::Below(*bound),
            Validator::Max(bound) => Rejection::Above(*bound),
            Validator::Custom(_) => Rejection::Refused,
        }
    }
}

/// One check of the validating function: where `rejects` holds of the
/// value, the function returns `variant` at once.
#[derive(Debug)]
pub struct Check {
    pub validator: Validator,
    pub rejects: Rejection,
    pub variant: ErrorVariant,
}

/// The function that runs every validator, in declaration order, on a value
/// of `value_type`, and returns the variant of the first one violated.
#[derive(Debug)]
pub struct ValidateFn {
    pub value_type: FloatType,
    pub error_type: String,
    pub checks: Vec<Check>,
}

/// The constructor of a wrapper: it returns the wrapper itself where the
/// guard cannot fail, and a result over the error type where it can.
#[derive(Debug)]
pub enum Constructor {
    Infallible { wrapper_name: String, inner_type: FloatType, sanitize: SanitizeFn },
    Fallible {
        wrapper_name: String,
        inner_type: FloatType,
        sanitize: SanitizeFn,
        validate: ValidateFn,
        error_type: ErrorType,
    },
}

/// The accessor that consumes a wrapper and hands out its inner value.
#[derive(Debug)]
pub struct Extractor {
    pub wrapper_name: String,
    pub inner_type: FloatType,
}

/// The constructor and the accessor of a wrapper.
#[derive(Debug)]
pub struct Implementation {
    pub constructor: Constructor,
    pub methods: Extractor,
}

/// How the wrapper is visible to the code around it.
#[derive(Debug)]
pub enum Visibility {
    Public,
    Restricted(String),
    Inherited,
}

/// Everything that is emitted for one wrapper.
#[derive(Debug)]
pub struct Artifact {
    pub module_name: String,
    pub doc_attrs: Vec<String>,
    pub derive_traits: Vec<AnyTransparentTrait>,
    pub wrapper_name: String,
    pub inner_type: InnerType,
    pub implementation: Implementation,
    pub implement_traits: Vec<ImplBlock>,
    pub visibility: Visibility,
    /// The error type that is re-exported beside the wrapper; present
    /// exactly where the constructor can fail.
    pub error_type_import: Option<String>,
}

/// The sanitizing function runs exactly the given sanitizers.
pub open spec fn sanitize_fn_matches(
    function: SanitizeFn,
    value_type: FloatType,
    sanitizers: Seq<Sanitizer>,
) -> bool {
    &&& function.value_type == value_type
    &&& function.steps@ == sanitizers
}

/// The validating function checks exactly the given validators, each with
/// its own variant.
pub open spec fn validate_fn_matches(
    function: ValidateFn,
    wrapper_name: Seq<char>,
    value_type: FloatType,
    validators: Seq<Validator>,
) -> bool {
    &&& function.value_type == value_type
    &&& function.error_type@ == error_name_of(wrapper_name)
    &&& function.checks@.len() == validators.len()
    &&& forall|i: int|
        0 <= i < validators.len() ==> {
            &&& (#[trigger] function.checks@[i]).validator == validators[i]
            &&& function.checks@[i].rejects == rejection_of(validators[i])
            &&& function.checks@[i].variant == error_variant_of(validators[i])
        }
}

/// Assembles the sanitizing function.
pub fn gen_sanitize_fn(value_type: FloatType, sanitizers: &Vec<Sanitizer>) -> (function: SanitizeFn)
    ensures
        sanitize_fn_matches(function, value_type, sanitizers@),
{
    let mut steps: Vec<Sanitizer> = Vec::new();
    let mut i: usize = 0;
    while i < sanitizers.len()
        invariant
            i <= sanitizers@.len(),
            steps@ == sanitizers@.take(i as int),
        decreases sanitizers@.len() - i,
    {
        steps.push(sanitizers[i].duplicate());
        assert(steps@ =~= sanitizers@.take(i + 1));
        i += 1;
    }
    assert(sanitizers@.take(i as int) =~= sanitizers@);
    SanitizeFn { value_type, steps }
}

/// Assembles the validating function.
pub fn gen_validate_fn(wrapper_name: &str, value_type: FloatType, validators: &Vec<Validator>) -> (function:
    ValidateFn)
    ensures
        validate_fn_matches(function, wrapper_name@, value_type, validators@),
{
    let mut checks: Vec<Check> = Vec::new();
    let mut i: usize = 0;
    while i < validators.len()
        invariant
            i <= validators@.len(),
            checks@.len() == i,
            forall|k: int|
                0 <= k < i ==> {
                    &&& (#[trigger] checks@[k]).validator == validators@[k]
                    &&& checks@[k].rejects == rejection_of(validators@[k])
                    &&& checks@[k].variant == error_variant_of(validators@[k])
                },
        decreases validators@.len() - i,
    {
        let validator = validators[i].duplicate();
        let rejects = Rejection::of(&validator);
        let variant = ErrorVariant::of(&validator);
        checks.push(Check { validator, rejects, variant });
        i += 1;
    }
    ValidateFn { value_type, error_type: gen_error_type_name(wrapper_name), checks }
}

/// The constructor is the infallible one over the given sanitizers.
pub open spec fn is_infallible_constructor(
    constructor: Constructor,
    wrapper_name: Seq<char>,
    value_type: FloatType,
    sanitizers: Seq<Sanitizer>,
) -> bool {
    match constructor {
        Constructor::Infallible { wrapper_name: name, inner_type, sanitize } => {
            &&& name@ == wrapper_name
            &&& inner_type == value_type
            &&& sanitize_fn_matches(sanitize, value_type, sanitizers)
        },
        Constructor::Fallible { .. } => false,
    }
}

/// The constructor is the fallible one over the given rules, with the error
/// type of the validators.
pub open spec fn is_fallible_constructor(
    constructor: Constructor,
    wrapper_name: Seq<char>,
    value_type: FloatType,
    sanitizers: Seq<Sanitizer>,
    validators: Seq<Validator>,
) -> bool {
    match constructor {
        Constructor::Infallible { .. } => false,
        Constructor::Fallible { wrapper_name: name, inner_type, sanitize, validate, error_type } => {
            &&& name@ == wrapper_name
            &&& inner_type == value_type
            &&& sanitize_fn_matches(sanitize, value_type, sanitizers)
            &&& validate_fn_matches(validate, wrapper_name, value_type, validators)
            &&& error_type.name@ == error_name_of(wrapper_name)
            &&& variants_match(error_type.variants@, validators)
        },
    }
}

/// Assembles the constructor of a wrapper that cannot fail: it sanitizes
/// and wraps.
pub fn gen_new_without_validation(
    wrapper_name: &str,
    value_type: FloatType,
    sanitizers: &Vec<Sanitizer>,
) -> (constructor: Constructor)
    ensures
        is_infallible_constructor(constructor, wrapper_name@, value_type, sanitizers@),
{
    let sanitize = gen_sanitize_fn(value_type, sanitizers);
    Constructor::Infallible {
        wrapper_name: String::from_str(wrapper_name),
        inner_type: value_type,
        sanitize,
    }
}

/// Assembles the constructor of a wrapper that can fail, with its error
/// type: it sanitizes, validates, and wraps only what passed.
pub fn gen_new_with_validation(
    wrapper_name: &str,
    value_type: FloatType,
    sanitizers: &Vec<Sanitizer>,
    validators: &Vec<Validator>,
) -> (constructor: Constructor)
    ensures
        is_fallible_constructor(constructor, wrapper_name@, value_type, sanitizers@, validators@),
{
    let sanitize = gen_sanitize_fn(value_type, sanitizers);
    let error_type = gen_validation_error_type(wrapper_name, validators);
    let validate = gen_validate_fn(wrapper_name, value_type, validators);
    Constructor::Fallible {
        wrapper_name: String::from_str(wrapper_name),
        inner_type: value_type,
        sanitize,
        validate,
        error_type,
    }
}

/// Assembles the accessor of a wrapper.
pub fn gen_impl_methods(wrapper_name: &str, inner_type: FloatType) -> (methods: Extractor)
    ensures
        methods.wrapper_name@ == wrapper_name@,
        methods.inner_type == inner_type,
{
    Extractor { wrapper_name: String::from_str(wrapper_name), inner_type }
}

/// The implementation is the one that the guard calls for: exactly one
/// constructor, fallible where the guard validates, and the accessor.
pub open spec fn implementation_matches(
    implementation: Implementation,
    wrapper_name: Seq<char>,
    inner_type: FloatType,
    meta: Guard,
) -> bool {
    &&& implementation.methods.wrapper_name@ == wrapper_name
    &&& implementation.methods.inner_type == inner_type
    &&& match meta {
        Guard::WithoutValidation { sanitizers } => is_infallible_constructor(
            implementation.constructor,
            wrapper_name,
            inner_type,
            sanitizers@,
        ),
        Guard::WithValidation { sanitizers, validators } => is_fallible_constructor(
            implementation.constructor,
            wrapper_name,
            inner_type,
            sanitizers@,
            validators@,
        ),
    }
}

/// Assembles the constructor that matches the guard, and the accessor.
pub fn gen_implementation(wrapper_name: &str, inner_type: FloatType, meta: &Guard) -> (implementation:
    Implementation)
    ensures
        implementation_matches(implementation, wrapper_name@, inner_type, *meta),
{
    let constructor = match meta {
        Guard::WithoutValidation { sanitizers } => gen_new_without_validation(
            wrapper_name,
            inner_type,
            sanitizers,
        ),
        Guard::WithValidation { sanitizers, validators } => gen_new_with_validation(
            wrapper_name,
            inner_type,
            sanitizers,
            validators,
        ),
    };
    let methods = gen_impl_methods(wrapper_name, inner_type);
    Implementation { constructor, methods }
}

impl FloatType {
    pub open spec fn spec_name(&self) -> Seq<char> {
        match self {
            FloatType::F32 => "f32"@,
            FloatType::F64 => "f64"@,
        }
    }

    /// The type's name as it is written.
    pub fn name(&self) -> (text: &'static str)
        ensures
            text@ == self.spec_name(),
    {
        match self {
            FloatType::F32 => "f32",
            FloatType::F64 => "f64",
        }
    }
}

/// The artifact is the one that the inputs call for.
pub open spec fn artifact_matches(
    artifact: Artifact,
    doc_attrs: Vec<String>,
    vis: Visibility,
    number_type: FloatType,
    wrapper_name: Seq<char>,
    meta: Guard,
    traits: Seq<AnyDeriveTrait>,
    maybe_default_value: Option<String>,
) -> bool {
    &&& artifact.module_name@ == module_name_of(wrapper_name)
    &&& artifact.doc_attrs == doc_attrs
    &&& artifact.visibility == vis
    &&& artifact.wrapper_name@ == wrapper_name
    &&& artifact.inner_type.name@ == number_type.spec_name()
    &&& artifact.inner_type.category == InnerCategory::Float
    &&& implementation_matches(artifact.implementation, wrapper_name, number_type, meta)
    &&& artifact.derive_traits@ == transparent_part(traits)
    &&& blocks_match(
        artifact.implement_traits@,
        wrapper_name,
        artifact.inner_type,
        artifact.error_type_import,
        irregular_part(traits),
        maybe_default_value,
    )
    &&& artifact.error_type_import.is_some() == meta.spec_has_validation()
    &&& artifact.error_type_import.is_some() ==> artifact.error_type_import.unwrap()@
        == error_name_of(wrapper_name)
}

/// Generates everything for one wrapper of a floating-point number: the
/// definition with its derivation list, the constructor that matches the
/// guard, the accessor, one implementation block per irregular capability,
/// and, exactly where the guard validates, the error type and its
/// re-export. Generation fails, with nothing emitted, exactly where a block
/// cannot be assembled.
pub fn gen_nutype_for_float(
    doc_attrs: Vec<String>,
    vis: Visibility,
    number_type: FloatType,
    wrapper_name: &str,
    meta: Guard,
    traits: Vec<AnyDeriveTrait>,
    maybe_default_value: Option<String>,
) -> (emitted: Result<Artifact, ConfigError>)
    ensures
        match emitted {
            Ok(artifact) => {
                &&& blocks_assemble(
                    irregular_part(traits@),
                    irregular_part(traits@).len() as int,
                    maybe_default_value.is_some(),
                    meta.spec_has_validation(),
                )
                &&& artifact_matches(
                    artifact,
                    doc_attrs,
                    vis,
                    number_type,
                    wrapper_name@,
                    meta,
                    traits@,
                    maybe_default_value,
                )
            },
            Err(error) => is_block_error(
                error,
                wrapper_name@,
                irregular_part(traits@),
                maybe_default_value.is_some(),
                meta.spec_has_validation(),
            ),
        },
{
    let module_name = gen_module_name_for_type(wrapper_name);
    let implementation = gen_implementation(wrapper_name, number_type, &meta);
    let inner_type = InnerType {
        name: String::from_str(number_type.name()),
        category: InnerCategory::Float,
    };
    let maybe_error_type_name: Option<String> = match meta {
        Guard::WithoutValidation { .. } => None,
        Guard::WithValidation { .. } => Some(gen_error_type_name(wrapper_name)),
    };
    let error_type_import = copy_name(&maybe_error_type_name);
    match gen_traits(
        wrapper_name,
        &inner_type,
        maybe_error_type_name,
        traits,
        maybe_default_value,
        &meta,
    ) {
        Ok(generated) => {
            let GeneratedTraits { derive_transparent_traits, implement_traits } = generated;
            Ok(
                Artifact {
                    module_name,
                    doc_attrs,
                    derive_traits: derive_transparent_traits,
                    wrapper_name: String::from_str(wrapper_name),
                    inner_type,
                    implementation,
                    implement_traits,
                    visibility: vis,
                    error_type_import,
                },
            )
        },
        Err(error) => Err(error),
    }
}

} // verus!
