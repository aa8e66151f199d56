//! The attribute model: what one wrapper type asks for.

use vstd::prelude::*;

verus! {

/// `proc_macro2::Span`, the source location a diagnostic points at. The
/// library carries such a value from a token to a diagnostic and never looks
/// inside it.
#[verifier::external_type_specification]
#[verifier::external_body]
pub struct ExSpan(proc_macro2::Span);

/// `proc_macro2::Span::call_site`: the place of the macro's invocation, for a
/// diagnostic that belongs to no single token. Nothing is claimed of it.
pub assume_specification[ proc_macro2::Span::call_site ]() -> (span: proc_macro2::Span)
;

/// An item of the attribute model together with the place it was written at.
pub struct Spanned<T> {
    pub item: T,
    pub span: proc_macro2::Span,
}

/// The floating-point type that a wrapper encloses.
#[derive(Clone, Copy, Debug, PartialEq, Eq, Structural)]
pub enum FloatType {
    F32,
    F64,
}

/// A transformation of the raw value, applied before validation. Bounds are
/// held as integer keys. The keys of two numbers order as the numbers do,
/// with two exceptions that the emitted code treats otherwise: the two zeros
/// of a floating-point type have different keys, and a value that is not a
/// number has a key and so a place in the order.
#[derive(Debug)]
pub enum Sanitizer {
    Clamp { min: i64, max: i64 },
    Custom(String),
}

/// A predicate on the sanitized value.
#[derive(Debug)]
pub enum Validator {
    Min(i64),
    Max(i64),
    Custom(String),
}

/// The kind of a sanitizer: each kind may be given once.
#[derive(Clone, Copy, Debug, PartialEq, Eq, Structural)]
pub enum SanitizerKind {
    Clamp,
    Custom,
}

/// The kind of a validator: each kind may be given once.
#[derive(Clone, Copy, Debug, PartialEq, Eq, Structural)]
pub enum ValidatorKind {
    Min,
    Max,
    Custom,
}

impl Sanitizer {
    pub open spec fn spec_kind(&self) -> SanitizerKind {
        match self {
            Sanitizer::Clamp { .. } => SanitizerKind::Clamp,
            Sanitizer::Custom(_) => SanitizerKind::Custom,
        }
    }

    #[verifier::when_used_as_spec(spec_kind)]
    pub fn kind(&self) -> (k: SanitizerKind)
        ensures
            k == self.spec_kind(),
    {
        match self {
            Sanitizer::Clamp { .. } => SanitizerKind::Clamp,
            Sanitizer::Custom(_) => SanitizerKind::Custom,
        }
    }

    /// A copy that is equal to `self`.
    pub fn duplicate(&self) -> (copy: Sanitizer)
        ensures
            copy == *self,
    {
        match self {
            Sanitizer::Clamp { min, max } => Sanitizer::Clamp { min: *min, max: *max },
            Sanitizer::Custom(expr) => Sanitizer::Custom(expr.clone()),
        }
    }
}

impl Validator {
    pub open spec fn spec_kind(&self) -> ValidatorKind {
        match self {
            Validator::Min(_) => ValidatorKind::Min,
            Validator::Max(_) => ValidatorKind::Max,
            Validator::Custom(_) => ValidatorKind::Custom,
        }
    }

    #[verifier::when_used_as_spec(spec_kind)]
    pub fn kind(&self) -> (k: ValidatorKind)
        ensures
            k == self.spec_kind(),
    {
        match self {
            Validator::Min(_) => ValidatorKind::Min,
            Validator::Max(_) => ValidatorKind::Max,
            Validator::Custom(_) => ValidatorKind::Custom,
        }
    }

    /// A copy that is equal to `self`.
    pub fn duplicate(&self) -> (copy: Validator)
        ensures
            copy == *self,
    {
        match self {
            Validator::Min(bound) => Validator::Min(*bound),
            Validator::Max(bound) => Validator::Max(*bound),
            Validator::Custom(expr) => Validator::Custom(expr.clone()),
        }
    }
}

/// The rules as they were written, before they are checked.
pub struct RawGuard {
    pub sanitizers: Vec<Spanned<Sanitizer>>,
    pub validators: Vec<Spanned<Validator>>,
}

/// How a wrapper is constructed: without validation the constructor cannot
/// fail; with validation it can, and an error type exists.
#[derive(Debug)]
pub enum Guard {
    WithoutValidation { sanitizers: Vec<Sanitizer> },
    WithValidation { sanitizers: Vec<Sanitizer>, validators: Vec<Validator> },
}

impl Guard {
    pub open spec fn spec_has_validation(&self) -> bool {
        self is WithValidation
    }

    #[verifier::when_used_as_spec(spec_has_validation)]
    pub fn has_validation(&self) -> (fallible: bool)
        ensures
            fallible == self.spec_has_validation(),
    {
        match self {
            Guard::WithoutValidation { .. } => false,
            Guard::WithValidation { .. } => true,
        }
    }

    /// The sanitizers of either state, in declaration order.
    pub open spec fn sanitizers(&self) -> Seq<Sanitizer> {
        match self {
            Guard::WithoutValidation { sanitizers } => sanitizers@,
            Guard::WithValidation { sanitizers, .. } => sanitizers@,
        }
    }

    /// The validators, in declaration order; none without validation.
    pub open spec fn validators(&self) -> Seq<Validator> {
        match self {
            Guard::WithoutValidation { .. } => Seq::empty(),
            Guard::WithValidation { validators, .. } => validators@,
        }
    }

    /// A guard as classification leaves it: it validates exactly when it
    /// has a validator, and no kind of rule occurs twice.
    pub open spec fn wf(&self) -> bool {
        &&& self is WithValidation ==> self.validators().len() > 0
        &&& distinct_sanitizer_kinds(self.sanitizers())
        &&& distinct_validator_kinds(self.validators())
    }
}

pub open spec fn distinct_sanitizer_kinds(items: Seq<Sanitizer>) -> bool {
    forall|i: int, j: int|
        0 <= i < j < items.len() ==> (#[trigger] items[i]).spec_kind() != (
        #[trigger] items[j]).spec_kind()
}

pub open spec fn distinct_validator_kinds(items: Seq<Validator>) -> bool {
    forall|i: int, j: int|
        0 <= i < j < items.len() ==> (#[trigger] items[i]).spec_kind() != (
        #[trigger] items[j]).spec_kind()
}

/// What went wrong with a wrapper's description.
#[derive(Clone, Copy, Debug, PartialEq, Eq, Structural)]
pub enum ConfigErrorKind {
    DuplicateRule,
    UnknownOption,
    MissingOption,
    FeatureRequired,
    UnsupportedCapability,
    Syntax,
}

/// A diagnostic: it stops the generation of one wrapper and is shown to the
/// developer at `span`.
pub struct ConfigError {
    pub kind: ConfigErrorKind,
    pub span: proc_macro2::Span,
    pub message: String,
}

/// `syn::Error`, the compiler error that a diagnostic is shown as. The
/// library makes such a value and never looks inside it.
#[verifier::external_type_specification]
#[verifier::external_body]
pub struct ExSynError(syn::Error);

/// The texts of the messages that a `syn::Error` holds, in the order in
/// which they were put into it. Such an error is a list of messages, each
/// with a text and a place.
pub uninterp spec fn syn_error_messages(error: syn::Error) -> Seq<Seq<char>>;

/// The places of the messages that a `syn::Error` holds, as they were handed
/// to it, in the order of the messages.
pub uninterp spec fn syn_error_places(error: syn::Error) -> Seq<proc_macro2::Span>;

/// `syn::Error::new`: a compiler error that holds one message, with the
/// given text, which begins and ends at the given place.
#[verifier::external_body]
fn new_syn_error(span: proc_macro2::Span, message: &str) -> (error: syn::Error)
    ensures
        syn_error_messages(error) == seq![message@],
        syn_error_places(error) == seq![span],
{
    syn::Error::new(span, message)
}

impl ConfigError {
    /// The compiler error that shows this diagnostic at its place: it holds
    /// one message, with the diagnostic's text, at the diagnostic's place.
    pub fn into_syn_error(self) -> (error: syn::Error)
        ensures
            syn_error_messages(error) == seq![self.message@],
            syn_error_places(error) == seq![self.span],
    {
        new_syn_error(self.span, self.message.as_str())
    }
}

/// The opt-in capabilities of the embedding build.
#[derive(Clone, Copy, Debug, PartialEq, Eq, Structural)]
pub struct Features {
    pub new_unchecked: bool,
    pub serde: bool,
    pub schemars: bool,
    pub arbitrary: bool,
}

/// Whether the constructor that skips validation is generated.
#[derive(Clone, Copy, Debug, PartialEq, Eq, Structural)]
pub enum NewUnchecked {
    Off,
    On,
}

} // verus!

verus! {

/// A capability as the developer may request it.
#[derive(Clone, Copy, Debug, PartialEq, Eq, Structural)]
pub enum DeriveTrait {
    Debug,
    Clone,
    Copy,
    PartialEq,
    Eq,
    PartialOrd,
    Ord,
    Hash,
    Display,
    AsRef,
    Into,
    From,
    Deref,
    Borrow,
    FromStr,
    TryFrom,
    Default,
    SerdeSerialize,
    SerdeDeserialize,
    SchemarsJsonSchema,
    ArbitraryArbitrary,
    DieselNewType,
}

/// A capability that a wrapper can have.
#[derive(Clone, Copy, Debug, PartialEq, Eq, Structural)]
pub enum AnyDeriveTrait {
    Debug,
    Clone,
    Copy,
    PartialEq,
    Eq,
    PartialOrd,
    Ord,
    Hash,
    Display,
    AsRef,
    Into,
    From,
    Deref,
    Borrow,
    FromStr,
    TryFrom,
    Default,
    SerdeSerialize,
    SerdeDeserialize,
    ArbitraryArbitrary,
    DieselNewType,
}

} // verus!

verus! {

/// The category of the type that a wrapper encloses.
#[derive(Clone, Copy, Debug, PartialEq, Eq, Structural)]
pub enum InnerCategory {
    Float,
    Integer,
    Text,
    Arbitrary,
}

/// The type that a wrapper encloses: its name and its category.
#[derive(Debug)]
pub struct InnerType {
    pub name: String,
    pub category: InnerCategory,
}

impl InnerType {
    /// A copy that is equal to `self`.
    pub fn duplicate(&self) -> (copy: InnerType)
        ensures
            copy == *self,
    {
        InnerType { name: self.name.clone(), category: self.category }
    }
}

/// A copy of an optional name, equal to the name.
pub fn copy_name(name: &Option<String>) -> (copy: Option<String>)
    ensures
        copy == *name,
{
    match name {
        Some(text) => Some(text.clone()),
        None => None,
    }
}

} // verus!
