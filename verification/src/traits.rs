//! The capability resolver: the requested capabilities are split into those
//! that a structural derivation provides and those that need an
//! implementation block of their own, and the blocks are assembled.

use vstd::prelude::*;
use crate::models::{copy_name, AnyDeriveTrait, ConfigError, ConfigErrorKind, Guard, InnerType};
use crate::text::join3;

verus! {

/// A capability that a structural derivation provides.
#[derive(Clone, Copy, Debug, PartialEq, Eq, Structural)]
pub enum AnyTransparentTrait {
    Debug,
    Clone,
    Copy,
    PartialEq,
    Eq,
    PartialOrd,
    Ord,
    Hash,
    DieselNewType,
}

/// A capability that needs an implementation block of its own.
#[derive(Clone, Copy, Debug, PartialEq, Eq, Structural)]
pub enum AnyIrregularTrait {
    AsRef,
    From,
    Into,
    Display,
    Deref,
    Borrow,
    FromStr,
    TryFrom,
    Default,
    SerdeSerialize,
    SerdeDeserialize,
    ArbitraryArbitrary,
}

/// A capability, resolved to the way it is generated.
#[derive(Clone, Copy, Debug, PartialEq, Eq, Structural)]
pub enum AnyGeneratableTrait {
    Transparent(AnyTransparentTrait),
    Irregular(AnyIrregularTrait),
}

/// The fixed table that resolves each capability.
pub open spec fn generatable_of(derive_trait: AnyDeriveTrait) -> AnyGeneratableTrait {
    match derive_trait {
        AnyDeriveTrait::Debug => AnyGeneratableTrait::Transparent(AnyTransparentTrait::Debug),
        AnyDeriveTrait::Clone => AnyGeneratableTrait::Transparent(AnyTransparentTrait::Clone),
        AnyDeriveTrait::Copy => AnyGeneratableTrait::Transparent(AnyTransparentTrait::Copy),
        AnyDeriveTrait::Hash => AnyGeneratableTrait::Transparent(AnyTransparentTrait::Hash),
        AnyDeriveTrait::PartialEq => AnyGeneratableTrait::Transparent(
            AnyTransparentTrait::PartialEq,
        ),
        AnyDeriveTrait::Eq => AnyGeneratableTrait::Transparent(AnyTransparentTrait::Eq),
        AnyDeriveTrait::PartialOrd => AnyGeneratableTrait::Transparent(
            AnyTransparentTrait::PartialOrd,
        ),
        AnyDeriveTrait::Ord => AnyGeneratableTrait::Transparent(AnyTransparentTrait::Ord),
        AnyDeriveTrait::DieselNewType => AnyGeneratableTrait::Transparent(
            AnyTransparentTrait::DieselNewType,
        ),
        AnyDeriveTrait::AsRef => AnyGeneratableTrait::Irregular(AnyIrregularTrait::AsRef),
        AnyDeriveTrait::From => AnyGeneratableTrait::Irregular(AnyIrregularTrait::From),
        AnyDeriveTrait::Into => AnyGeneratableTrait::Irregular(AnyIrregularTrait::Into),
        AnyDeriveTrait::Display => AnyGeneratableTrait::Irregular(AnyIrregularTrait::Display),
        AnyDeriveTrait::Deref => AnyGeneratableTrait::Irregular(AnyIrregularTrait::Deref),
        AnyDeriveTrait::Borrow => AnyGeneratableTrait::Irregular(AnyIrregularTrait::Borrow),
        AnyDeriveTrait::FromStr => AnyGeneratableTrait::Irregular(AnyIrregularTrait::FromStr),
        AnyDeriveTrait::TryFrom => AnyGeneratableTrait::Irregular(AnyIrregularTrait::TryFrom),
        AnyDeriveTrait::Default => AnyGeneratableTrait::Irregular(AnyIrregularTrait::Default),
        AnyDeriveTrait::SerdeSerialize => AnyGeneratableTrait::Irregular(
            AnyIrregularTrait::SerdeSerialize,
        ),
        AnyDeriveTrait::SerdeDeserialize => AnyGeneratableTrait::Irregular(
            AnyIrregularTrait::SerdeDeserialize,
        ),
        AnyDeriveTrait::ArbitraryArbitrary => AnyGeneratableTrait::Irregular(
            AnyIrregularTrait::ArbitraryArbitrary,
        ),
    }
}

impl From<AnyDeriveTrait> for AnyGeneratableTrait {
    fn from(derive_trait: AnyDeriveTrait) -> (resolved: AnyGeneratableTrait) {
        match derive_trait {
            AnyDeriveTrait::Debug => AnyGeneratableTrait::Transparent(AnyTransparentTrait::Debug),
            AnyDeriveTrait::Clone => AnyGeneratableTrait::Transparent(AnyTransparentTrait::Clone),
            AnyDeriveTrait::Copy => AnyGeneratableTrait::Transparent(AnyTransparentTrait::Copy),
            AnyDeriveTrait::Hash => AnyGeneratableTrait::Transparent(AnyTransparentTrait::Hash),
            AnyDeriveTrait::PartialEq => AnyGeneratableTrait::Transparent(
                AnyTransparentTrait::PartialEq,
            ),
            AnyDeriveTrait::Eq => AnyGeneratableTrait::Transparent(AnyTransparentTrait::Eq),
            AnyDeriveTrait::PartialOrd => AnyGeneratableTrait::Transparent(
                AnyTransparentTrait::PartialOrd,
            ),
            AnyDeriveTrait::Ord => AnyGeneratableTrait::Transparent(AnyTransparentTrait::Ord),
            AnyDeriveTrait::AsRef => AnyGeneratableTrait::Irregular(AnyIrregularTrait::AsRef),
            AnyDeriveTrait::From => AnyGeneratableTrait::Irregular(AnyIrregularTrait::From),
            AnyDeriveTrait::Into => AnyGeneratableTrait::Irregular(AnyIrregularTrait::Into),
            AnyDeriveTrait::Display => AnyGeneratableTrait::Irregular(AnyIrregularTrait::Display),
            AnyDeriveTrait::Deref => AnyGeneratableTrait::Irregular(AnyIrregularTrait::Deref),
            AnyDeriveTrait::Borrow => AnyGeneratableTrait::Irregular(AnyIrregularTrait::Borrow),
            AnyDeriveTrait::FromStr => AnyGeneratableTrait::Irregular(AnyIrregularTrait::FromStr),
            AnyDeriveTrait::TryFrom => AnyGeneratableTrait::Irregular(AnyIrregularTrait::TryFrom),
            AnyDeriveTrait::Default => AnyGeneratableTrait::Irregular(AnyIrregularTrait::Default),
            AnyDeriveTrait::SerdeSerialize => AnyGeneratableTrait::Irregular(
                AnyIrregularTrait::SerdeSerialize,
            ),
            AnyDeriveTrait::SerdeDeserialize => AnyGeneratableTrait::Irregular(
                AnyIrregularTrait::SerdeDeserialize,
            ),
            AnyDeriveTrait::ArbitraryArbitrary => AnyGeneratableTrait::Irregular(
                AnyIrregularTrait::ArbitraryArbitrary,
            ),
            AnyDeriveTrait::DieselNewType => AnyGeneratableTrait::Transparent(
                AnyTransparentTrait::DieselNewType,
            ),
        }
    }
}

impl vstd::std_specs::convert::FromSpecImpl<AnyDeriveTrait> for AnyGeneratableTrait {
    open spec fn obeys_from_spec() -> bool {
        true
    }

    open spec fn from_spec(derive_trait: AnyDeriveTrait) -> AnyGeneratableTrait {
        generatable_of(derive_trait)
    }
}

impl AnyTransparentTrait {
    /// The path by which the derivation names the capability.
    pub open spec fn spec_path(&self) -> Seq<char> {
        match self {
            Self::Debug => "Debug"@,
            Self::Clone => "Clone"@,
            Self::Copy => "Copy"@,
            Self::PartialEq => "PartialEq"@,
            Self::Eq => "Eq"@,
            Self::PartialOrd => "PartialOrd"@,
            Self::Ord => "Ord"@,
            Self::Hash => "Hash"@,
            Self::DieselNewType => "::diesel_derive_newtype::DieselNewType"@,
        }
    }

    /// The path that is written into the derivation list.
    pub fn to_tokens(&self) -> (path: &'static str)
        ensures
            path@ == self.spec_path(),
    {
        match self {
            Self::Debug => "Debug",
            Self::Clone => "Clone",
            Self::Copy => "Copy",
            Self::PartialEq => "PartialEq",
            Self::Eq => "Eq",
            Self::PartialOrd => "PartialOrd",
            Self::Ord => "Ord",
            Self::Hash => "Hash",
            Self::DieselNewType => "::diesel_derive_newtype::DieselNewType",
        }
    }
}

/// The transparent members of a set of capabilities, in its order.
pub open spec fn transparent_part(traits: Seq<AnyDeriveTrait>) -> Seq<AnyTransparentTrait>
    decreases traits.len(),
{
    if traits.len() == 0 {
        Seq::empty()
    } else {
        let before = transparent_part(traits.drop_last());
        match generatable_of(traits.last()) {
            AnyGeneratableTrait::Transparent(tr) => before.push(tr),
            AnyGeneratableTrait::Irregular(_) => before,
        }
    }
}

/// The irregular members of a set of capabilities, in its order.
pub open spec fn irregular_part(traits: Seq<AnyDeriveTrait>) -> Seq<AnyIrregularTrait>
    decreases traits.len(),
{
    if traits.len() == 0 {
        Seq::empty()
    } else {
        let before = irregular_part(traits.drop_last());
        match generatable_of(traits.last()) {
            AnyGeneratableTrait::Transparent(_) => before,
            AnyGeneratableTrait::Irregular(tr) => before.push(tr),
        }
    }
}

/// The two halves of a resolved set of capabilities.
pub struct GeneratableTraits {
    pub transparent_traits: Vec<AnyTransparentTrait>,
    pub irregular_traits: Vec<AnyIrregularTrait>,
}

/// Splits a set of capabilities into its transparent and its irregular
/// members. Every capability lands in exactly one half.
pub fn split_into_generatable_traits(traits: Vec<AnyDeriveTrait>) -> (halves: GeneratableTraits)
    ensures
        halves.transparent_traits@ == transparent_part(traits@),
        halves.irregular_traits@ == irregular_part(traits@),
        halves.transparent_traits@.len() + halves.irregular_traits@.len() == traits@.len(),
{
    let mut transparent_traits: Vec<AnyTransparentTrait> = Vec::new();
    let mut irregular_traits: Vec<AnyIrregularTrait> = Vec::new();
    let n = traits.len();
    let mut i: usize = 0;
    while i < n
        invariant
            n == traits@.len(),
            i <= n,
            transparent_traits@ == transparent_part(traits@.take(i as int)),
            irregular_traits@ == irregular_part(traits@.take(i as int)),
            transparent_traits@.len() + irregular_traits@.len() == i,
        decreases n - i,
    {
        assert(traits@.take(i + 1).drop_last() =~= traits@.take(i as int));
        assert(traits@.take(i + 1).last() == traits@[i as int]);
        match AnyGeneratableTrait::from(traits[i]) {
            AnyGeneratableTrait::Transparent(tr) => transparent_traits.push(tr),
            AnyGeneratableTrait::Irregular(tr) => irregular_traits.push(tr),
        }
        i += 1;
    }
    assert(traits@.take(n as int) =~= traits@);
    GeneratableTraits { transparent_traits, irregular_traits }
}

} // verus!

verus! {

/// What an implementation block is made of, by capability.
#[derive(Debug)]
pub enum ImplForm {
    AsRef { inner_type: InnerType },
    From { inner_type: InnerType },
    Into { inner_type: InnerType },
    Display,
    Deref { inner_type: InnerType },
    Borrow { inner_type: InnerType },
    /// Parsing from a string; with an error type the block threads it
    /// through its result.
    FromStr { inner_type: InnerType, error_type: Option<String> },
    /// Conversion from the inner value through the constructor.
    TryFrom { inner_type: InnerType, error_type: Option<String> },
    /// The default value, built from the supplied expression; where the
    /// wrapper validates, the block checks the value through the constructor.
    Default { value: String, has_validation: bool },
    SerdeSerialize,
    SerdeDeserialize { inner_type: InnerType, error_type: Option<String> },
    ArbitraryArbitrary { inner_type: InnerType },
}

/// One implementation block of the emitted artifact.
#[derive(Debug)]
pub struct ImplBlock {
    pub wrapper_name: String,
    pub form: ImplForm,
}

impl ImplForm {
    /// The capability that the block provides.
    pub open spec fn spec_capability(&self) -> AnyIrregularTrait {
        match self {
            ImplForm::AsRef { .. } => AnyIrregularTrait::AsRef,
            ImplForm::From { .. } => AnyIrregularTrait::From,
            ImplForm::Into { .. } => AnyIrregularTrait::Into,
            ImplForm::Display => AnyIrregularTrait::Display,
            ImplForm::Deref { .. } => AnyIrregularTrait::Deref,
            ImplForm::Borrow { .. } => AnyIrregularTrait::Borrow,
            ImplForm::FromStr { .. } => AnyIrregularTrait::FromStr,
            ImplForm::TryFrom { .. } => AnyIrregularTrait::TryFrom,
            ImplForm::Default { .. } => AnyIrregularTrait::Default,
            ImplForm::SerdeSerialize => AnyIrregularTrait::SerdeSerialize,
            ImplForm::SerdeDeserialize { .. } => AnyIrregularTrait::SerdeDeserialize,
            ImplForm::ArbitraryArbitrary { .. } => AnyIrregularTrait::ArbitraryArbitrary,
        }
    }

    #[verifier::when_used_as_spec(spec_capability)]
    pub fn capability(&self) -> (tr: AnyIrregularTrait)
        ensures
            tr == self.spec_capability(),
    {
        match self {
            ImplForm::AsRef { .. } => AnyIrregularTrait::AsRef,
            ImplForm::From { .. } => AnyIrregularTrait::From,
            ImplForm::Into { .. } => AnyIrregularTrait::Into,
            ImplForm::Display => AnyIrregularTrait::Display,
            ImplForm::Deref { .. } => AnyIrregularTrait::Deref,
            ImplForm::Borrow { .. } => AnyIrregularTrait::Borrow,
            ImplForm::FromStr { .. } => AnyIrregularTrait::FromStr,
            ImplForm::TryFrom { .. } => AnyIrregularTrait::TryFrom,
            ImplForm::Default { .. } => AnyIrregularTrait::Default,
            ImplForm::SerdeSerialize => AnyIrregularTrait::SerdeSerialize,
            ImplForm::SerdeDeserialize { .. } => AnyIrregularTrait::SerdeDeserialize,
            ImplForm::ArbitraryArbitrary { .. } => AnyIrregularTrait::ArbitraryArbitrary,
        }
    }
}

/// Why the block of a capability cannot be assembled, if it cannot: the
/// default needs a supplied expression, and a randomized instance cannot be
/// generated for a wrapper that validates.
pub open spec fn block_failure(
    tr: AnyIrregularTrait,
    has_default: bool,
    guard_validates: bool,
) -> Option<ConfigErrorKind> {
    match tr {
        AnyIrregularTrait::Default => if has_default {
            None
        } else {
            Some(ConfigErrorKind::MissingOption)
        },
        AnyIrregularTrait::ArbitraryArbitrary => if guard_validates {
            Some(ConfigErrorKind::UnsupportedCapability)
        } else {
            None
        },
        _ => None,
    }
}

/// The text of the diagnostic for a default requested without a value.
pub open spec fn missing_default_message(wrapper_name: Seq<char>) -> Seq<char> {
    "Default trait is derived for type "@ + wrapper_name + ", but `default = ` is missing"@
}

/// The text of the diagnostic for a randomized instance of a wrapper that
/// validates.
pub open spec fn arbitrary_with_validation_message(wrapper_name: Seq<char>) -> Seq<char> {
    "Cannot derive trait `Arbitrary` for a custom type `"@ + wrapper_name
        + "` which contains validation.\nYou have to implement `Arbitrary` trait manually to guarantee that it respects the validation rules."@
}

/// The text that goes with a failure of `block_failure`.
pub open spec fn block_failure_message(kind: ConfigErrorKind, wrapper_name: Seq<char>) -> Seq<char> {
    if kind == ConfigErrorKind::MissingOption {
        missing_default_message(wrapper_name)
    } else {
        arbitrary_with_validation_message(wrapper_name)
    }
}

/// The block of a capability that can be assembled.
pub open spec fn impl_form_of(
    tr: AnyIrregularTrait,
    inner_type: InnerType,
    error_type: Option<String>,
    default_value: Option<String>,
) -> ImplForm {
    match tr {
        AnyIrregularTrait::AsRef => ImplForm::AsRef { inner_type },
        AnyIrregularTrait::From => ImplForm::From { inner_type },
        AnyIrregularTrait::Into => ImplForm::Into { inner_type },
        AnyIrregularTrait::Display => ImplForm::Display,
        AnyIrregularTrait::Deref => ImplForm::Deref { inner_type },
        AnyIrregularTrait::Borrow => ImplForm::Borrow { inner_type },
        AnyIrregularTrait::FromStr => ImplForm::FromStr { inner_type, error_type },
        AnyIrregularTrait::TryFrom => ImplForm::TryFrom { inner_type, error_type },
        AnyIrregularTrait::Default => ImplForm::Default {
            value: default_value.unwrap(),
            has_validation: error_type.is_some(),
        },
        AnyIrregularTrait::SerdeSerialize => ImplForm::SerdeSerialize,
        AnyIrregularTrait::SerdeDeserialize => ImplForm::SerdeDeserialize { inner_type, error_type },
        AnyIrregularTrait::ArbitraryArbitrary => ImplForm::ArbitraryArbitrary { inner_type },
    }
}

/// Every capability before `end` can be assembled.
pub open spec fn blocks_assemble(
    impl_traits: Seq<AnyIrregularTrait>,
    end: int,
    has_default: bool,
    guard_validates: bool,
) -> bool {
    forall|i: int|
        0 <= i < end ==> block_failure(
            #[trigger] impl_traits[i],
            has_default,
            guard_validates,
        ).is_none()
}

/// The blocks are those of the capabilities, one for one and in order.
pub open spec fn blocks_match(
    blocks: Seq<ImplBlock>,
    wrapper_name: Seq<char>,
    inner_type: InnerType,
    error_type: Option<String>,
    impl_traits: Seq<AnyIrregularTrait>,
    default_value: Option<String>,
) -> bool {
    &&& blocks.len() == impl_traits.len()
    &&& forall|i: int|
        0 <= i < blocks.len() ==> {
            &&& (#[trigger] blocks[i]).wrapper_name@ == wrapper_name
            &&& blocks[i].form == impl_form_of(
                impl_traits[i],
                inner_type,
                error_type,
                default_value,
            )
        }
}

/// The diagnostic of the earliest capability whose block cannot be
/// assembled.
pub open spec fn is_block_error(
    error: ConfigError,
    wrapper_name: Seq<char>,
    impl_traits: Seq<AnyIrregularTrait>,
    has_default: bool,
    guard_validates: bool,
) -> bool {
    exists|k: int|
        {
            &&& 0 <= k < impl_traits.len()
            &&& blocks_assemble(impl_traits, k, has_default, guard_validates)
            &&& block_failure(#[trigger] impl_traits[k], has_default, guard_validates) == Some(
                error.kind,
            )
            &&& error.message@ == block_failure_message(error.kind, wrapper_name)
        }
}

/// Assembles one implementation block per irregular capability, in order.
/// The earliest capability that cannot be assembled stops the generation
/// with its diagnostic, which points at the macro's invocation.
pub fn gen_implemented_traits(
    wrapper_name: &str,
    inner_type: &InnerType,
    maybe_error_wrapper_name: Option<String>,
    impl_traits: Vec<AnyIrregularTrait>,
    maybe_default_value: Option<String>,
    guard: &Guard,
) -> (assembled: Result<Vec<ImplBlock>, ConfigError>)
    ensures
        match assembled {
            Ok(blocks) => {
                &&& blocks_assemble(
                    impl_traits@,
                    impl_traits@.len() as int,
                    maybe_default_value.is_some(),
                    guard.spec_has_validation(),
                )
                &&& blocks_match(
                    blocks@,
                    wrapper_name@,
                    *inner_type,
                    maybe_error_wrapper_name,
                    impl_traits@,
                    maybe_default_value,
                )
            },
            Err(error) => is_block_error(
                error,
                wrapper_name@,
                impl_traits@,
                maybe_default_value.is_some(),
                guard.spec_has_validation(),
            ),
        },
{
    let mut blocks: Vec<ImplBlock> = Vec::new();
    let n = impl_traits.len();
    let mut i: usize = 0;
    while i < n
        invariant
            n == impl_traits@.len(),
            i <= n,
            blocks_assemble(
                impl_traits@,
                i as int,
                maybe_default_value.is_some(),
                guard.spec_has_validation(),
            ),
            blocks_match(
                blocks@,
                wrapper_name@,
                *inner_type,
                maybe_error_wrapper_name,
                impl_traits@.take(i as int),
                maybe_default_value,
            ),
        decreases n - i,
    {
        let form = match impl_traits[i] {
            AnyIrregularTrait::AsRef => ImplForm::AsRef { inner_type: inner_type.duplicate() },
            AnyIrregularTrait::From => ImplForm::From { inner_type: inner_type.duplicate() },
            AnyIrregularTrait::Into => ImplForm::Into { inner_type: inner_type.duplicate() },
            AnyIrregularTrait::Display => ImplForm::Display,
            AnyIrregularTrait::Deref => ImplForm::Deref { inner_type: inner_type.duplicate() },
            AnyIrregularTrait::Borrow => ImplForm::Borrow { inner_type: inner_type.duplicate() },
            AnyIrregularTrait::FromStr => ImplForm::FromStr {
                inner_type: inner_type.duplicate(),
                error_type: copy_name(&maybe_error_wrapper_name),
            },
            AnyIrregularTrait::TryFrom => ImplForm::TryFrom {
                inner_type: inner_type.duplicate(),
                error_type: copy_name(&maybe_error_wrapper_name),
            },
            AnyIrregularTrait::Default => match &maybe_default_value {
                Some(default_value) => ImplForm::Default {
                    value: default_value.clone(),
                    has_validation: maybe_error_wrapper_name.is_some(),
                },
                None => {
                    let message = join3(
                        "Default trait is derived for type ",
                        wrapper_name,
                        ", but `default = ` is missing",
                    );
                    return Err(
                        ConfigError {
                            kind: ConfigErrorKind::MissingOption,
                            span: proc_macro2::Span::call_site(),
                            message,
                        },
                    );
                },
            },
            AnyIrregularTrait::SerdeSerialize => ImplForm::SerdeSerialize,
            AnyIrregularTrait::SerdeDeserialize => ImplForm::SerdeDeserialize {
                inner_type: inner_type.duplicate(),
                error_type: copy_name(&maybe_error_wrapper_name),
            },
            AnyIrregularTrait::ArbitraryArbitrary => {
                if guard.has_validation() {
                    let message = join3(
                        "Cannot derive trait `Arbitrary` for a custom type `",
                        wrapper_name,
                        "` which contains validation.\nYou have to implement `Arbitrary` trait manually to guarantee that it respects the validation rules.",
                    );
                    return Err(
                        ConfigError {
                            kind: ConfigErrorKind::UnsupportedCapability,
                            span: proc_macro2::Span::call_site(),
                            message,
                        },
                    );
                }
                ImplForm::ArbitraryArbitrary { inner_type: inner_type.duplicate() }
            },
        };
        blocks.push(ImplBlock { wrapper_name: String::from_str(wrapper_name), form });
        i += 1;
    }
    assert(impl_traits@.take(n as int) =~= impl_traits@);
    Ok(blocks)
}

/// The capabilities of a wrapper, as they are generated: the derivation list
/// and the implementation blocks.
pub struct GeneratedTraits {
    pub derive_transparent_traits: Vec<AnyTransparentTrait>,
    pub implement_traits: Vec<ImplBlock>,
}

/// Resolves a set of capabilities: the transparent ones go into the
/// derivation list, in the set's order, and each irregular one gets its
/// implementation block. Fails as `gen_implemented_traits` does.
pub fn gen_traits(
    wrapper_name: &str,
    inner_type: &InnerType,
    maybe_error_wrapper_name: Option<String>,
    traits: Vec<AnyDeriveTrait>,
    maybe_default_value: Option<String>,
    guard: &Guard,
) -> (generated: Result<GeneratedTraits, ConfigError>)
    ensures
        match generated {
            Ok(parts) => {
                &&& blocks_assemble(
                    irregular_part(traits@),
                    irregular_part(traits@).len() as int,
                    maybe_default_value.is_some(),
                    guard.spec_has_validation(),
                )
                &&& parts.derive_transparent_traits@ == transparent_part(traits@)
                &&& blocks_match(
                    parts.implement_traits@,
                    wrapper_name@,
                    *inner_type,
                    maybe_error_wrapper_name,
                    irregular_part(traits@),
                    maybe_default_value,
                )
            },
            Err(error) => is_block_error(
                error,
                wrapper_name@,
                irregular_part(traits@),
                maybe_default_value.is_some(),
                guard.spec_has_validation(),
            ),
        },
{
    let GeneratableTraits { transparent_traits, irregular_traits } = split_into_generatable_traits(
        traits,
    );
    match gen_implemented_traits(
        wrapper_name,
        inner_type,
        maybe_error_wrapper_name,
        irregular_traits,
        maybe_default_value,
        guard,
    ) {
        Ok(implement_traits) => Ok(
            GeneratedTraits { derive_transparent_traits: transparent_traits, implement_traits },
        ),
        Err(error) => Err(error),
    }
}

} // verus!

verus! {

/// The capability that a resolved capability came from.
pub open spec fn derive_trait_of(resolved: AnyGeneratableTrait) -> AnyDeriveTrait {
    match resolved {
        AnyGeneratableTrait::Transparent(tr) => match tr {
            AnyTransparentTrait::Debug => AnyDeriveTrait::Debug,
            AnyTransparentTrait::Clone => AnyDeriveTrait::Clone,
            AnyTransparentTrait::Copy => AnyDeriveTrait::Copy,
            AnyTransparentTrait::PartialEq => AnyDeriveTrait::PartialEq,
            AnyTransparentTrait::Eq => AnyDeriveTrait::Eq,
            AnyTransparentTrait::PartialOrd => AnyDeriveTrait::PartialOrd,
            AnyTransparentTrait::Ord => AnyDeriveTrait::Ord,
            AnyTransparentTrait::Hash => AnyDeriveTrait::Hash,
            AnyTransparentTrait::DieselNewType => AnyDeriveTrait::DieselNewType,
        },
        AnyGeneratableTrait::Irregular(tr) => match tr {
            AnyIrregularTrait::AsRef => AnyDeriveTrait::AsRef,
            AnyIrregularTrait::From => AnyDeriveTrait::From,
            AnyIrregularTrait::Into => AnyDeriveTrait::Into,
            AnyIrregularTrait::Display => AnyDeriveTrait::Display,
            AnyIrregularTrait::Deref => AnyDeriveTrait::Deref,
            AnyIrregularTrait::Borrow => AnyDeriveTrait::Borrow,
            AnyIrregularTrait::FromStr => AnyDeriveTrait::FromStr,
            AnyIrregularTrait::TryFrom => AnyDeriveTrait::TryFrom,
            AnyIrregularTrait::Default => AnyDeriveTrait::Default,
            AnyIrregularTrait::SerdeSerialize => AnyDeriveTrait::SerdeSerialize,
            AnyIrregularTrait::SerdeDeserialize => AnyDeriveTrait::SerdeDeserialize,
            AnyIrregularTrait::ArbitraryArbitrary => AnyDeriveTrait::ArbitraryArbitrary,
        },
    }
}

/// The table resolves every capability to one half, and no two
/// capabilities to the same thing.
pub proof fn lemma_resolution_is_total_and_one_to_one(derive_trait: AnyDeriveTrait)
    ensures
        derive_trait_of(generatable_of(derive_trait)) == derive_trait,
{
}

/// Every resolved capability is the resolution of the capability it came
/// from.
pub proof fn lemma_resolution_reaches(resolved: AnyGeneratableTrait)
    ensures
        generatable_of(derive_trait_of(resolved)) == resolved,
{
}

/// Each half of the split holds exactly the capabilities of the set that
/// resolve to it.
pub proof fn lemma_split_members(traits: Seq<AnyDeriveTrait>)
    ensures
        forall|tr: AnyTransparentTrait|
            (#[trigger] transparent_part(traits).contains(tr)) == traits.contains(
                derive_trait_of(AnyGeneratableTrait::Transparent(tr)),
            ),
        forall|tr: AnyIrregularTrait|
            (#[trigger] irregular_part(traits).contains(tr)) == traits.contains(
                derive_trait_of(AnyGeneratableTrait::Irregular(tr)),
            ),
    decreases traits.len(),
{
    if traits.len() > 0 {
        let head = traits.drop_last();
        let last = traits.last();
        lemma_split_members(head);
        lemma_resolution_is_total_and_one_to_one(last);
        assert forall|tr: AnyTransparentTrait|
            (#[trigger] transparent_part(traits).contains(tr)) == traits.contains(
                derive_trait_of(AnyGeneratableTrait::Transparent(tr)),
            ) by {
            let source = derive_trait_of(AnyGeneratableTrait::Transparent(tr));
            lemma_member_of_pushed(head, last, source);
            lemma_resolution_reaches(AnyGeneratableTrait::Transparent(tr));
            assert(traits.contains(source) == (head.contains(source) || source == last));
            assert(transparent_part(head).contains(tr) == head.contains(source));
            match generatable_of(last) {
                AnyGeneratableTrait::Transparent(t) => {
                    lemma_member_of_pushed(transparent_part(head), t, tr);
                    assert(transparent_part(traits) == transparent_part(head).push(t));
                },
                AnyGeneratableTrait::Irregular(_) => {},
            }
        }
        assert forall|tr: AnyIrregularTrait|
            (#[trigger] irregular_part(traits).contains(tr)) == traits.contains(
                derive_trait_of(AnyGeneratableTrait::Irregular(tr)),
            ) by {
            let source = derive_trait_of(AnyGeneratableTrait::Irregular(tr));
            lemma_member_of_pushed(head, last, source);
            lemma_resolution_reaches(AnyGeneratableTrait::Irregular(tr));
            assert(traits.contains(source) == (head.contains(source) || source == last));
            assert(irregular_part(head).contains(tr) == head.contains(source));
            match generatable_of(last) {
                AnyGeneratableTrait::Transparent(_) => {},
                AnyGeneratableTrait::Irregular(t) => {
                    lemma_member_of_pushed(irregular_part(head), t, tr);
                    assert(irregular_part(traits) == irregular_part(head).push(t));
                },
            }
        }
    }
}

/// A sequence with one more member holds what it held before, and that
/// member.
proof fn lemma_member_of_pushed<T>(head: Seq<T>, last: T, wanted: T)
    ensures
        head.push(last).contains(wanted) == (head.contains(wanted) || wanted == last),
        head.push(last).drop_last() == head,
        forall|whole: Seq<T>|
            whole.len() > 0 && whole.drop_last() == head && whole.last() == last ==> (
            #[trigger] whole.contains(wanted)) == (head.contains(wanted) || wanted == last),
{
    let pushed = head.push(last);
    assert(pushed.drop_last() =~= head);
    if head.contains(wanted) {
        let k = choose|k: int| 0 <= k < head.len() && head[k] == wanted;
        assert(pushed[k] == wanted);
    }
    if wanted == last {
        assert(pushed[head.len() as int] == wanted);
    }
    if pushed.contains(wanted) {
        let k = choose|k: int| 0 <= k < pushed.len() && pushed[k] == wanted;
        if k < head.len() {
            assert(head[k] == wanted);
        }
    }
    assert forall|whole: Seq<T>|
        whole.len() > 0 && whole.drop_last() == head && whole.last() == last implies (
    #[trigger] whole.contains(wanted)) == (head.contains(wanted) || wanted == last) by {
        assert(whole =~= pushed);
    }
}

/// A set of capabilities is emitted once each: neither the derivation list
/// nor the capabilities of the implementation blocks hold one twice.
pub proof fn lemma_no_capability_twice(traits: Seq<AnyDeriveTrait>)
    requires
        traits.no_duplicates(),
    ensures
        transparent_part(traits).no_duplicates(),
        irregular_part(traits).no_duplicates(),
    decreases traits.len(),
{
    if traits.len() > 0 {
        let head = traits.drop_last();
        let last = traits.last();
        assert(head.no_duplicates());
        lemma_no_capability_twice(head);
        lemma_split_members(head);
        lemma_resolution_is_total_and_one_to_one(last);
        assert(!head.contains(last)) by {
            if head.contains(last) {
                let k = choose|k: int| 0 <= k < head.len() && head[k] == last;
                assert(traits[k] == traits[traits.len() - 1]);
            }
        }
        match generatable_of(last) {
            AnyGeneratableTrait::Transparent(t) => {
                assert(!transparent_part(head).contains(t));
                assert(transparent_part(traits) == transparent_part(head).push(t));
                lemma_push_keeps_distinct(transparent_part(head), t);
            },
            AnyGeneratableTrait::Irregular(t) => {
                assert(!irregular_part(head).contains(t));
                assert(irregular_part(traits) == irregular_part(head).push(t));
                lemma_push_keeps_distinct(irregular_part(head), t);
            },
        }
    }
}

/// A new member keeps a sequence free of repeats.
proof fn lemma_push_keeps_distinct<T>(head: Seq<T>, last: T)
    requires
        head.no_duplicates(),
        !head.contains(last),
    ensures
        head.push(last).no_duplicates(),
{
    let pushed = head.push(last);
    assert forall|i: int, j: int| 0 <= i < pushed.len() && 0 <= j < pushed.len() && i != j implies pushed[i] != pushed[j] by {
        if i < head.len() && j < head.len() {
        } else if i < head.len() {
            assert(head.contains(pushed[i]));
        } else {
            assert(head.contains(pushed[j]));
        }
    }
}

/// A capability that was requested more than once is still emitted once:
/// the set gathered from the requests resolves to halves without repeats.
pub proof fn lemma_repeated_requests_emit_once(requests: Seq<AnyDeriveTrait>)
    ensures
        transparent_part(crate::validate::unique_in_order(requests)).no_duplicates(),
        irregular_part(crate::validate::unique_in_order(requests)).no_duplicates(),
{
    crate::validate::lemma_unique_in_order(requests);
    lemma_no_capability_twice(crate::validate::unique_in_order(requests));
}

/// The default cannot be assembled without a supplied value: where it is
/// among the capabilities and no value is given, not every block
/// assembles, so generation fails.
pub proof fn lemma_default_needs_value(impl_traits: Seq<AnyIrregularTrait>, guard_validates: bool)
    requires
        impl_traits.contains(AnyIrregularTrait::Default),
    ensures
        !blocks_assemble(impl_traits, impl_traits.len() as int, false, guard_validates),
        block_failure(AnyIrregularTrait::Default, false, guard_validates) == Some(
            ConfigErrorKind::MissingOption,
        ),
        forall|tr: AnyIrregularTrait| #[trigger]
            block_failure(tr, true, false).is_none(),
{
    let k = choose|k: int| 0 <= k < impl_traits.len() && impl_traits[k] == AnyIrregularTrait::Default;
    assert(block_failure(impl_traits[k], false, guard_validates).is_some());
}

} // verus!
