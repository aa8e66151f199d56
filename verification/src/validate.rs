//! Guard validation: the rules of a wrapper are checked for repeated kinds
//! and the wrapper is classified as fallible or infallible; the requested
//! capabilities are checked and gathered into a set.

use vstd::prelude::*;
use crate::models::{
    AnyDeriveTrait, ConfigError, ConfigErrorKind, DeriveTrait, Guard, RawGuard, Sanitizer,
    SanitizerKind, Spanned, Validator, ValidatorKind,
};
use crate::text::join3;

verus! {

/// `(first, second)` is the earliest pair of positions that hold the same
/// value: no position before `first` has a partner, and `second` is the
/// first partner of `first`.
pub open spec fn is_first_repeat(codes: Seq<u8>, first: int, second: int) -> bool {
    &&& 0 <= first < second < codes.len()
    &&& codes[first] == codes[second]
    &&& forall|a: int, b: int| 0 <= a < first && a < b < codes.len() ==> codes[a] != codes[b]
    &&& forall|b: int| first < b < second ==> codes[first] != codes[b]
}

/// No value occurs twice.
pub open spec fn all_distinct(codes: Seq<u8>) -> bool {
    forall|a: int, b: int| 0 <= a < b < codes.len() ==> codes[a] != codes[b]
}

/// The earliest pair of equal values, if any value occurs twice.
pub fn first_repeat(codes: &Vec<u8>) -> (found: Option<(usize, usize)>)
    ensures
        match found {
            None => all_distinct(codes@),
            Some((first, second)) => is_first_repeat(codes@, first as int, second as int),
        },
{
    let n = codes.len();
    let mut i: usize = 0;
    while i < n
        invariant
            n == codes@.len(),
            i <= n,
            forall|a: int, b: int| 0 <= a < i && a < b < n ==> codes@[a] != codes@[b],
        decreases n - i,
    {
        let mut j: usize = i + 1;
        while j < n
            invariant
                n == codes@.len(),
                i < j <= n,
                forall|a: int, b: int| 0 <= a < i && a < b < n ==> codes@[a] != codes@[b],
                forall|b: int| i < b < j ==> codes@[i as int] != codes@[b],
            decreases n - j,
        {
            if codes[i] == codes[j] {
                return Some((i, j));
            }
            j += 1;
        }
        i += 1;
    }
    None
}

pub open spec fn sanitizer_kind_code(kind: SanitizerKind) -> u8 {
    match kind {
        SanitizerKind::Clamp => 0,
        SanitizerKind::Custom => 1,
    }
}

pub open spec fn validator_kind_code(kind: ValidatorKind) -> u8 {
    match kind {
        ValidatorKind::Min => 0,
        ValidatorKind::Max => 1,
        ValidatorKind::Custom => 2,
    }
}

pub open spec fn sanitizer_kind_name(kind: SanitizerKind) -> Seq<char> {
    match kind {
        SanitizerKind::Clamp => "Clamp"@,
        SanitizerKind::Custom => "Custom"@,
    }
}

pub open spec fn validator_kind_name(kind: ValidatorKind) -> Seq<char> {
    match kind {
        ValidatorKind::Min => "Min"@,
        ValidatorKind::Max => "Max"@,
        ValidatorKind::Custom => "Custom"@,
    }
}

/// The text of the diagnostic for a sanitizer kind that was given twice.
pub open spec fn duplicate_sanitizer_message(kind: SanitizerKind) -> Seq<char> {
    "Duplicated sanitizer `"@ + sanitizer_kind_name(kind)
        + "`.\nYou never know, what kind of error will be next!"@
}

/// The text of the diagnostic for a validator kind that was given twice.
pub open spec fn duplicate_validator_message(kind: ValidatorKind) -> Seq<char> {
    "Duplicated validators `"@ + validator_kind_name(kind)
        + "`.\nOh, maybe it's a time to take a break?"@
}

/// The kinds of the sanitizers, as codes.
pub open spec fn sanitizer_codes(items: Seq<Spanned<Sanitizer>>) -> Seq<u8> {
    Seq::new(items.len(), |i: int| sanitizer_kind_code(items[i].item.spec_kind()))
}

/// The kinds of the validators, as codes.
pub open spec fn validator_codes(items: Seq<Spanned<Validator>>) -> Seq<u8> {
    Seq::new(items.len(), |i: int| validator_kind_code(items[i].item.spec_kind()))
}

/// The rules without the places they were written at.
pub open spec fn bare_sanitizers(items: Seq<Spanned<Sanitizer>>) -> Seq<Sanitizer> {
    Seq::new(items.len(), |i: int| items[i].item)
}

/// The rules without the places they were written at.
pub open spec fn bare_validators(items: Seq<Spanned<Validator>>) -> Seq<Validator> {
    Seq::new(items.len(), |i: int| items[i].item)
}

/// The diagnostic for the earliest repeated sanitizer kind: it names the
/// kind and points at the second occurrence.
pub open spec fn is_duplicate_sanitizer_error(
    items: Seq<Spanned<Sanitizer>>,
    error: ConfigError,
) -> bool {
    exists|first: int, second: int|
        {
            &&& #[trigger] is_first_repeat(sanitizer_codes(items), first, second)
            &&& error.kind == ConfigErrorKind::DuplicateRule
            &&& error.span == items[second].span
            &&& error.message@ == duplicate_sanitizer_message(items[first].item.spec_kind())
        }
}

/// The diagnostic for the earliest repeated validator kind: it names the
/// kind and points at the second occurrence.
pub open spec fn is_duplicate_validator_error(
    items: Seq<Spanned<Validator>>,
    error: ConfigError,
) -> bool {
    exists|first: int, second: int|
        {
            &&& #[trigger] is_first_repeat(validator_codes(items), first, second)
            &&& error.kind == ConfigErrorKind::DuplicateRule
            &&& error.span == items[second].span
            &&& error.message@ == duplicate_validator_message(items[first].item.spec_kind())
        }
}

fn sanitizer_code(kind: SanitizerKind) -> (code: u8)
    ensures
        code == sanitizer_kind_code(kind),
{
    match kind {
        SanitizerKind::Clamp => 0,
        SanitizerKind::Custom => 1,
    }
}

fn validator_code(kind: ValidatorKind) -> (code: u8)
    ensures
        code == validator_kind_code(kind),
{
    match kind {
        ValidatorKind::Min => 0,
        ValidatorKind::Max => 1,
        ValidatorKind::Custom => 2,
    }
}

fn sanitizer_name(kind: SanitizerKind) -> (name: &'static str)
    ensures
        name@ == sanitizer_kind_name(kind),
{
    match kind {
        SanitizerKind::Clamp => "Clamp",
        SanitizerKind::Custom => "Custom",
    }
}

fn validator_name(kind: ValidatorKind) -> (name: &'static str)
    ensures
        name@ == validator_kind_name(kind),
{
    match kind {
        ValidatorKind::Min => "Min",
        ValidatorKind::Max => "Max",
        ValidatorKind::Custom => "Custom",
    }
}

/// Checks that no kind of sanitizer is given twice and drops the spans.
pub fn validate_sanitizers(sanitizers: Vec<Spanned<Sanitizer>>) -> (checked: Result<
    Vec<Sanitizer>,
    ConfigError,
>)
    ensures
        match checked {
            Ok(list) => all_distinct(sanitizer_codes(sanitizers@)) && list@ == bare_sanitizers(
                sanitizers@,
            ),
            Err(error) => is_duplicate_sanitizer_error(sanitizers@, error),
        },
{
    let n = sanitizers.len();
    let mut codes: Vec<u8> = Vec::new();
    let mut i: usize = 0;
    while i < n
        invariant
            n == sanitizers@.len(),
            i <= n,
            codes@ == sanitizer_codes(sanitizers@).take(i as int),
        decreases n - i,
    {
        codes.push(sanitizer_code(sanitizers[i].item.kind()));
        assert(codes@ =~= sanitizer_codes(sanitizers@).take(i + 1));
        i += 1;
    }
    assert(codes@ =~= sanitizer_codes(sanitizers@));
    match first_repeat(&codes) {
        Some((first, second)) => {
            let message = join3(
                "Duplicated sanitizer `",
                sanitizer_name(sanitizers[first].item.kind()),
                "`.\nYou never know, what kind of error will be next!",
            );
            let error = ConfigError {
                kind: ConfigErrorKind::DuplicateRule,
                span: sanitizers[second].span,
                message,
            };
            assert(is_first_repeat(sanitizer_codes(sanitizers@), first as int, second as int));
            Err(error)
        },
        None => {
            let mut list: Vec<Sanitizer> = Vec::new();
            let mut k: usize = 0;
            while k < n
                invariant
                    n == sanitizers@.len(),
                    k <= n,
                    list@ == bare_sanitizers(sanitizers@).take(k as int),
                decreases n - k,
            {
                list.push(sanitizers[k].item.duplicate());
                assert(list@ =~= bare_sanitizers(sanitizers@).take(k + 1));
                k += 1;
            }
            assert(list@ =~= bare_sanitizers(sanitizers@));
            Ok(list)
        },
    }
}

/// Checks that no kind of validator is given twice and drops the spans.
pub fn validate_validators(validators: Vec<Spanned<Validator>>) -> (checked: Result<
    Vec<Validator>,
    ConfigError,
>)
    ensures
        match checked {
            Ok(list) => all_distinct(validator_codes(validators@)) && list@ == bare_validators(
                validators@,
            ),
            Err(error) => is_duplicate_validator_error(validators@, error),
        },
{
    let n = validators.len();
    let mut codes: Vec<u8> = Vec::new();
    let mut i: usize = 0;
    while i < n
        invariant
            n == validators@.len(),
            i <= n,
            codes@ == validator_codes(validators@).take(i as int),
        decreases n - i,
    {
        codes.push(validator_code(validators[i].item.kind()));
        assert(codes@ =~= validator_codes(validators@).take(i + 1));
        i += 1;
    }
    assert(codes@ =~= validator_codes(validators@));
    match first_repeat(&codes) {
        Some((first, second)) => {
            let message = join3(
                "Duplicated validators `",
                validator_name(validators[first].item.kind()),
                "`.\nOh, maybe it's a time to take a break?",
            );
            let error = ConfigError {
                kind: ConfigErrorKind::DuplicateRule,
                span: validators[second].span,
                message,
            };
            assert(is_first_repeat(validator_codes(validators@), first as int, second as int));
            Err(error)
        },
        None => {
            let mut list: Vec<Validator> = Vec::new();
            let mut k: usize = 0;
            while k < n
                invariant
                    n == validators@.len(),
                    k <= n,
                    list@ == bare_validators(validators@).take(k as int),
                decreases n - k,
            {
                list.push(validators[k].item.duplicate());
                assert(list@ =~= bare_validators(validators@).take(k + 1));
                k += 1;
            }
            assert(list@ =~= bare_validators(validators@));
            Ok(list)
        },
    }
}

/// What classification makes of rules that hold no repeated kind.
pub open spec fn classified(raw: RawGuard, guard: Guard) -> bool {
    &&& guard.sanitizers() == bare_sanitizers(raw.sanitizers@)
    &&& guard.validators() == bare_validators(raw.validators@)
    &&& guard.spec_has_validation() == (raw.validators@.len() > 0)
}

/// Checks the rules and classifies the wrapper. A repeated validator kind is
/// reported before a repeated sanitizer kind. With no validator the guard is
/// infallible, otherwise fallible; either keeps the rules in declaration
/// order.
pub fn validate_any_guard(raw_guard: RawGuard) -> (outcome: Result<Guard, ConfigError>)
    ensures
        match outcome {
            Ok(guard) => {
                &&& all_distinct(validator_codes(raw_guard.validators@))
                &&& all_distinct(sanitizer_codes(raw_guard.sanitizers@))
                &&& classified(raw_guard, guard)
                &&& guard.wf()
            },
            Err(error) => if all_distinct(validator_codes(raw_guard.validators@)) {
                is_duplicate_sanitizer_error(raw_guard.sanitizers@, error)
            } else {
                is_duplicate_validator_error(raw_guard.validators@, error)
            },
        },
{
    let ghost raw = raw_guard;
    let RawGuard { sanitizers, validators } = raw_guard;
    let validators = match validate_validators(validators) {
        Ok(list) => list,
        Err(error) => {
            return Err(error);
        },
    };
    let sanitizers = match validate_sanitizers(sanitizers) {
        Ok(list) => list,
        Err(error) => {
            return Err(error);
        },
    };
    proof {
        lemma_distinct_codes(raw.sanitizers@, raw.validators@);
    }
    if validators.len() == 0 {
        let guard = Guard::WithoutValidation { sanitizers };
        assert(guard.validators() =~= bare_validators(raw.validators@));
        Ok(guard)
    } else {
        Ok(Guard::WithValidation { sanitizers, validators })
    }
}

/// Distinct codes are distinct kinds.
proof fn lemma_distinct_codes(sanitizers: Seq<Spanned<Sanitizer>>, validators: Seq<Spanned<Validator>>)
    requires
        all_distinct(sanitizer_codes(sanitizers)),
        all_distinct(validator_codes(validators)),
    ensures
        crate::models::distinct_sanitizer_kinds(bare_sanitizers(sanitizers)),
        crate::models::distinct_validator_kinds(bare_validators(validators)),
{
    let sc = sanitizer_codes(sanitizers);
    let vc = validator_codes(validators);
    assert forall|i: int, j: int| 0 <= i < j < sanitizers.len() implies (
    #[trigger] bare_sanitizers(sanitizers)[i]).spec_kind() != (#[trigger] bare_sanitizers(
        sanitizers,
    )[j]).spec_kind() by {
        assert(sc[i] != sc[j]);
    }
    assert forall|i: int, j: int| 0 <= i < j < validators.len() implies (
    #[trigger] bare_validators(validators)[i]).spec_kind() != (#[trigger] bare_validators(
        validators,
    )[j]).spec_kind() by {
        assert(vc[i] != vc[j]);
    }
}

} // verus!

verus! {

/// The capability that stands for a request, where a wrapper can have it.
pub open spec fn any_derive_trait_of(tr: DeriveTrait) -> Option<AnyDeriveTrait> {
    match tr {
        DeriveTrait::Debug => Some(AnyDeriveTrait::Debug),
        DeriveTrait::Clone => Some(AnyDeriveTrait::Clone),
        DeriveTrait::Copy => Some(AnyDeriveTrait::Copy),
        DeriveTrait::PartialEq => Some(AnyDeriveTrait::PartialEq),
        DeriveTrait::Eq => Some(AnyDeriveTrait::Eq),
        DeriveTrait::Ord => Some(AnyDeriveTrait::Ord),
        DeriveTrait::PartialOrd => Some(AnyDeriveTrait::PartialOrd),
        DeriveTrait::Display => Some(AnyDeriveTrait::Display),
        DeriveTrait::AsRef => Some(AnyDeriveTrait::AsRef),
        DeriveTrait::Into => Some(AnyDeriveTrait::Into),
        DeriveTrait::From => Some(AnyDeriveTrait::From),
        DeriveTrait::Deref => Some(AnyDeriveTrait::Deref),
        DeriveTrait::Borrow => Some(AnyDeriveTrait::Borrow),
        DeriveTrait::FromStr => Some(AnyDeriveTrait::FromStr),
        DeriveTrait::TryFrom => Some(AnyDeriveTrait::TryFrom),
        DeriveTrait::Default => Some(AnyDeriveTrait::Default),
        DeriveTrait::SerdeSerialize => Some(AnyDeriveTrait::SerdeSerialize),
        DeriveTrait::SerdeDeserialize => Some(AnyDeriveTrait::SerdeDeserialize),
        DeriveTrait::Hash => Some(AnyDeriveTrait::Hash),
        DeriveTrait::ArbitraryArbitrary => Some(AnyDeriveTrait::ArbitraryArbitrary),
        DeriveTrait::DieselNewType => Some(AnyDeriveTrait::DieselNewType),
        DeriveTrait::SchemarsJsonSchema => None,
    }
}

/// The text of the diagnostic for a capability that no wrapper can have.
pub open spec fn unsupported_trait_message() -> Seq<char> {
    "Deriving of trait `SchemarsJsonSchema` is not (yet) supported for an arbitrary type"@
}

/// The diagnostic for an unsupported capability requested at `span`.
pub open spec fn is_unsupported_trait_error(span: proc_macro2::Span, error: ConfigError) -> bool {
    &&& error.kind == ConfigErrorKind::UnsupportedCapability
    &&& error.span == span
    &&& error.message@ == unsupported_trait_message()
}

/// Maps one request to the capability of a wrapper, or reports at `span`
/// that a wrapper cannot have it.
pub fn to_any_derive_trait(tr: DeriveTrait, _has_validation: bool, span: proc_macro2::Span) -> (mapped:
    Result<AnyDeriveTrait, ConfigError>)
    ensures
        match mapped {
            Ok(any) => any_derive_trait_of(tr) == Some(any),
            Err(error) => any_derive_trait_of(tr).is_none() && is_unsupported_trait_error(
                span,
                error,
            ),
        },
{
    match tr {
        DeriveTrait::Debug => Ok(AnyDeriveTrait::Debug),
        DeriveTrait::Clone => Ok(AnyDeriveTrait::Clone),
        DeriveTrait::Copy => Ok(AnyDeriveTrait::Copy),
        DeriveTrait::PartialEq => Ok(AnyDeriveTrait::PartialEq),
        DeriveTrait::Eq => Ok(AnyDeriveTrait::Eq),
        DeriveTrait::Ord => Ok(AnyDeriveTrait::Ord),
        DeriveTrait::PartialOrd => Ok(AnyDeriveTrait::PartialOrd),
        DeriveTrait::Display => Ok(AnyDeriveTrait::Display),
        DeriveTrait::AsRef => Ok(AnyDeriveTrait::AsRef),
        DeriveTrait::Into => Ok(AnyDeriveTrait::Into),
        DeriveTrait::From => Ok(AnyDeriveTrait::From),
        DeriveTrait::Deref => Ok(AnyDeriveTrait::Deref),
        DeriveTrait::Borrow => Ok(AnyDeriveTrait::Borrow),
        DeriveTrait::FromStr => Ok(AnyDeriveTrait::FromStr),
        DeriveTrait::TryFrom => Ok(AnyDeriveTrait::TryFrom),
        DeriveTrait::Default => Ok(AnyDeriveTrait::Default),
        DeriveTrait::SerdeSerialize => Ok(AnyDeriveTrait::SerdeSerialize),
        DeriveTrait::SerdeDeserialize => Ok(AnyDeriveTrait::SerdeDeserialize),
        DeriveTrait::Hash => Ok(AnyDeriveTrait::Hash),
        DeriveTrait::ArbitraryArbitrary => Ok(AnyDeriveTrait::ArbitraryArbitrary),
        DeriveTrait::DieselNewType => Ok(AnyDeriveTrait::DieselNewType),
        DeriveTrait::SchemarsJsonSchema => {
            let message = String::from_str(
                "Deriving of trait `SchemarsJsonSchema` is not (yet) supported for an arbitrary type",
            );
            Err(ConfigError { kind: ConfigErrorKind::UnsupportedCapability, span, message })
        },
    }
}

/// The members of `requests` in the order of their first occurrence, each
/// once.
pub open spec fn unique_in_order(requests: Seq<AnyDeriveTrait>) -> Seq<AnyDeriveTrait>
    decreases requests.len(),
{
    if requests.len() == 0 {
        Seq::empty()
    } else {
        let before = unique_in_order(requests.drop_last());
        if before.contains(requests.last()) {
            before
        } else {
            before.push(requests.last())
        }
    }
}

/// The capabilities that the requests stand for; meaningful where a wrapper
/// can have each of them.
pub open spec fn requested_capabilities(requests: Seq<Spanned<DeriveTrait>>) -> Seq<AnyDeriveTrait> {
    Seq::new(requests.len(), |i: int| any_derive_trait_of(requests[i].item).unwrap())
}

/// A wrapper can have every capability requested.
pub open spec fn all_supported(requests: Seq<Spanned<DeriveTrait>>) -> bool {
    forall|i: int| 0 <= i < requests.len() ==> any_derive_trait_of(
        (#[trigger] requests[i]).item,
    ).is_some()
}

/// A set of capabilities holds each member once, and holds exactly the
/// members of the sequence it was gathered from.
pub proof fn lemma_unique_in_order(requests: Seq<AnyDeriveTrait>)
    ensures
        unique_in_order(requests).no_duplicates(),
        forall|tr: AnyDeriveTrait| unique_in_order(requests).contains(tr) == requests.contains(tr),
        unique_in_order(requests).len() <= requests.len(),
    decreases requests.len(),
{
    if requests.len() > 0 {
        let head = requests.drop_last();
        lemma_unique_in_order(head);
        let before = unique_in_order(head);
        let last = requests.last();
        assert forall|tr: AnyDeriveTrait| unique_in_order(requests).contains(tr)
            == requests.contains(tr) by {
            if requests.contains(tr) {
                let k = choose|k: int| 0 <= k < requests.len() && requests[k] == tr;
                if k < requests.len() - 1 {
                    assert(head[k] == tr);
                    assert(head.contains(tr));
                    assert(before.contains(tr));
                    if !before.contains(last) {
                        let m = choose|m: int| 0 <= m < before.len() && before[m] == tr;
                        assert(before.push(last)[m] == tr);
                    }
                } else {
                    if !before.contains(last) {
                        assert(before.push(last)[before.len() as int] == tr);
                    }
                }
            }
            if unique_in_order(requests).contains(tr) {
                let m = choose|m: int|
                    0 <= m < unique_in_order(requests).len() && unique_in_order(requests)[m] == tr;
                if m < before.len() {
                    assert(before[m] == tr);
                    assert(before.contains(tr));
                    assert(head.contains(tr));
                    let k = choose|k: int| 0 <= k < head.len() && head[k] == tr;
                    assert(requests[k] == tr);
                } else {
                    assert(tr == last);
                    assert(requests[requests.len() - 1] == tr);
                }
            }
        }
    }
}

/// The diagnostic of the earliest request that no wrapper can have, at the
/// place of that request.
pub open spec fn is_first_unsupported_error(
    requests: Seq<Spanned<DeriveTrait>>,
    error: ConfigError,
) -> bool {
    exists|k: int|
        {
            &&& 0 <= k < requests.len()
            &&& all_supported(requests.take(k))
            &&& any_derive_trait_of((#[trigger] requests[k]).item).is_none()
            &&& is_unsupported_trait_error(requests[k].span, error)
        }
}

/// Gathers the requested capabilities into a set, in the order of their
/// first request. A request that no wrapper can have is reported at its own
/// place, the earliest such request first.
pub fn validate_any_derive_traits(guard: &Guard, spanned_derive_traits: Vec<Spanned<DeriveTrait>>) -> (
    gathered: Result<Vec<AnyDeriveTrait>, ConfigError>)
    ensures
        match gathered {
            Ok(traits) => {
                &&& all_supported(spanned_derive_traits@)
                &&& traits@ == unique_in_order(requested_capabilities(spanned_derive_traits@))
                &&& traits@.no_duplicates()
            },
            Err(error) => is_first_unsupported_error(spanned_derive_traits@, error),
        },
{
    let mut traits: Vec<AnyDeriveTrait> = Vec::new();
    let has_validation = guard.has_validation();
    let n = spanned_derive_traits.len();
    let ghost all = requested_capabilities(spanned_derive_traits@);
    let mut i: usize = 0;
    while i < n
        invariant
            n == spanned_derive_traits@.len(),
            i <= n,
            all == requested_capabilities(spanned_derive_traits@),
            all_supported(spanned_derive_traits@.take(i as int)),
            traits@ == unique_in_order(all.take(i as int)),
        decreases n - i,
    {
        let mapped = to_any_derive_trait(
            spanned_derive_traits[i].item,
            has_validation,
            spanned_derive_traits[i].span,
        );
        match mapped {
            Ok(any) => {
                assert(all.take(i + 1).drop_last() =~= all.take(i as int));
                assert(all.take(i + 1).last() == any);
                if !contains_trait(&traits, any) {
                    traits.push(any);
                }
                assert forall|k: int| 0 <= k < i + 1 implies any_derive_trait_of(
                    (#[trigger] spanned_derive_traits@.take(i + 1)[k]).item,
                ).is_some() by {
                    if k < i {
                        assert(spanned_derive_traits@.take(i as int)[k]
                            == spanned_derive_traits@[k]);
                    }
                }
            },
            Err(error) => {
                return Err(error);
            },
        }
        i += 1;
    }
    assert(all.take(n as int) =~= all);
    assert(spanned_derive_traits@.take(n as int) =~= spanned_derive_traits@);
    proof {
        lemma_unique_in_order(all);
    }
    Ok(traits)
}

/// Whether the set holds the capability.
pub fn contains_trait(traits: &Vec<AnyDeriveTrait>, wanted: AnyDeriveTrait) -> (found: bool)
    ensures
        found == traits@.contains(wanted),
{
    let mut i: usize = 0;
    while i < traits.len()
        invariant
            i <= traits@.len(),
            forall|k: int| 0 <= k < i ==> traits@[k] != wanted,
        decreases traits@.len() - i,
    {
        if traits[i] == wanted {
            return true;
        }
        i += 1;
    }
    false
}

} // verus!
