//! What the constructor of a wrapper computes: the raw value is sanitized,
//! then validated, then wrapped. A custom rule is code of the developer's;
//! the constructor stops at it, says so, and is resumed with its answer.

use vstd::prelude::*;
use crate::gen::{error_variant_of, rejection_of, ErrorVariant, Rejection};
use crate::models::{Guard, Sanitizer, Validator};

verus! {

/// `value`, brought into the range from `min` to `max`.
pub open spec fn clamp_value(value: i64, min: i64, max: i64) -> i64 {
    if value < min {
        min
    } else if value > max {
        max
    } else {
        value
    }
}

/// Where a construction stands when it stops.
#[derive(Clone, Copy, Debug, PartialEq, Eq, Structural)]
pub enum Outcome {
    /// Every rule has run; the wrapper holds the value.
    Constructed(i64),
    /// A validator was violated; no wrapper exists.
    Rejected(ErrorVariant),
    /// The custom sanitizer at `index` is to be applied to `value`.
    AwaitSanitizer { index: usize, value: i64 },
    /// The custom validator at `index` is to judge `value`.
    AwaitValidator { index: usize, value: i64 },
}

impl Outcome {
    /// The inner value of the wrapper, where one was constructed.
    pub fn into_inner(self) -> (inner: Option<i64>)
        ensures
            inner == match self {
                Outcome::Constructed(value) => Some(value),
                _ => None::<i64>,
            },
    {
        match self {
            Outcome::Constructed(value) => Some(value),
            _ => None,
        }
    }
}

/// Validation from the validator at `start` on: the first violated bound
/// rejects, a custom validator is awaited, and past the last validator the
/// value is wrapped. A value on a bound does not violate it.
pub open spec fn run_validators(validators: Seq<Validator>, start: int, value: i64) -> Outcome
    decreases validators.len() - start,
{
    if start < 0 || start >= validators.len() {
        Outcome::Constructed(value)
    } else {
        match validators[start] {
            Validator::Min(bound) => if value < bound {
                Outcome::Rejected(ErrorVariant::TooSmall)
            } else {
                run_validators(validators, start + 1, value)
            },
            Validator::Max(bound) => if value > bound {
                Outcome::Rejected(ErrorVariant::TooBig)
            } else {
                run_validators(validators, start + 1, value)
            },
            Validator::Custom(_) => Outcome::AwaitValidator { index: start as usize, value },
        }
    }
}

/// Construction from the sanitizer at `start` on: each clamp is applied, a
/// custom sanitizer is awaited, and past the last sanitizer validation
/// begins.
pub open spec fn run_sanitizers(
    sanitizers: Seq<Sanitizer>,
    validators: Seq<Validator>,
    start: int,
    value: i64,
) -> Outcome
    decreases sanitizers.len() - start,
{
    if start < 0 || start >= sanitizers.len() {
        run_validators(validators, 0, value)
    } else {
        match sanitizers[start] {
            Sanitizer::Clamp { min, max } => run_sanitizers(
                sanitizers,
                validators,
                start + 1,
                clamp_value(value, min, max),
            ),
            Sanitizer::Custom(_) => Outcome::AwaitSanitizer { index: start as usize, value },
        }
    }
}

fn validate_from(validators: &Vec<Validator>, start: usize, value: i64) -> (outcome: Outcome)
    ensures
        outcome == run_validators(validators@, start as int, value),
{
    let mut i: usize = start;
    while i < validators.len()
        invariant
            start <= i,
            run_validators(validators@, i as int, value) == run_validators(
                validators@,
                start as int,
                value,
            ),
        decreases validators@.len() - i,
    {
        match &validators[i] {
            Validator::Min(bound) => {
                if value < *bound {
                    return Outcome::Rejected(ErrorVariant::TooSmall);
                }
            },
            Validator::Max(bound) => {
                if value > *bound {
                    return Outcome::Rejected(ErrorVariant::TooBig);
                }
            },
            Validator::Custom(_) => {
                return Outcome::AwaitValidator { index: i, value };
            },
        }
        i += 1;
    }
    Outcome::Constructed(value)
}

fn clamp(value: i64, min: i64, max: i64) -> (clamped: i64)
    ensures
        clamped == clamp_value(value, min, max),
{
    if value < min {
        min
    } else if value > max {
        max
    } else {
        value
    }
}

fn sanitize_from(
    sanitizers: &Vec<Sanitizer>,
    validators: &Vec<Validator>,
    start: usize,
    value: i64,
) -> (outcome: Outcome)
    ensures
        outcome == run_sanitizers(sanitizers@, validators@, start as int, value),
{
    let mut i: usize = start;
    let mut current: i64 = value;
    while i < sanitizers.len()
        invariant
            start <= i,
            run_sanitizers(sanitizers@, validators@, i as int, current) == run_sanitizers(
                sanitizers@,
                validators@,
                start as int,
                value,
            ),
        decreases sanitizers@.len() - i,
    {
        match &sanitizers[i] {
            Sanitizer::Clamp { min, max } => {
                current = clamp(current, *min, *max);
            },
            Sanitizer::Custom(_) => {
                return Outcome::AwaitSanitizer { index: i, value: current };
            },
        }
        i += 1;
    }
    validate_from(validators, 0, current)
}

/// Runs the constructor of a wrapper on a raw value, up to the first custom
/// rule or to the end.
pub fn construct(guard: &Guard, raw: i64) -> (outcome: Outcome)
    ensures
        outcome == run_sanitizers(guard.sanitizers(), guard.validators(), 0, raw),
{
    match guard {
        Guard::WithoutValidation { sanitizers } => {
            let validators: Vec<Validator> = Vec::new();
            sanitize_from(sanitizers, &validators, 0, raw)
        },
        Guard::WithValidation { sanitizers, validators } => sanitize_from(
            sanitizers,
            validators,
            0,
            raw,
        ),
    }
}

/// Goes on after the custom sanitizer at `index` has turned its input into
/// `value`.
pub fn resume_sanitizing(guard: &Guard, index: usize, value: i64) -> (outcome: Outcome)
    ensures
        outcome == run_sanitizers(guard.sanitizers(), guard.validators(), index + 1, value),
{
    match guard {
        Guard::WithoutValidation { sanitizers } => {
            let validators: Vec<Validator> = Vec::new();
            if index < sanitizers.len() {
                sanitize_from(sanitizers, &validators, index + 1, value)
            } else {
                validate_from(&validators, 0, value)
            }
        },
        Guard::WithValidation { sanitizers, validators } => {
            if index < sanitizers.len() {
                sanitize_from(sanitizers, validators, index + 1, value)
            } else {
                validate_from(validators, 0, value)
            }
        },
    }
}

/// Goes on after the custom validator at `index` has judged `value`: a
/// value that it did not accept is rejected as invalid.
pub fn resume_validating(guard: &Guard, index: usize, value: i64, accepted: bool) -> (outcome:
    Outcome)
    ensures
        outcome == if accepted {
            run_validators(guard.validators(), index + 1, value)
        } else {
            Outcome::Rejected(ErrorVariant::Invalid)
        },
{
    if !accepted {
        return Outcome::Rejected(ErrorVariant::Invalid);
    }
    match guard {
        Guard::WithoutValidation { .. } => Outcome::Constructed(value),
        Guard::WithValidation { validators, .. } => {
            if index < validators.len() {
                validate_from(validators, index + 1, value)
            } else {
                Outcome::Constructed(value)
            }
        },
    }
}

/// One sanitizer applied to a value; `custom` says what the developer's
/// transformations compute.
pub open spec fn sanitize_step(
    sanitizer: Sanitizer,
    custom: spec_fn(Seq<char>, i64) -> i64,
    value: i64,
) -> i64 {
    match sanitizer {
        Sanitizer::Clamp { min, max } => clamp_value(value, min, max),
        Sanitizer::Custom(expr) => custom(expr@, value),
    }
}

/// The sanitizers from `start` on, applied in declaration order.
pub open spec fn sanitized_from(
    sanitizers: Seq<Sanitizer>,
    custom: spec_fn(Seq<char>, i64) -> i64,
    start: int,
    value: i64,
) -> i64
    decreases sanitizers.len() - start,
{
    if start < 0 || start >= sanitizers.len() {
        value
    } else {
        sanitized_from(
            sanitizers,
            custom,
            start + 1,
            sanitize_step(sanitizers[start], custom, value),
        )
    }
}

/// Whether the value violates the validator, which is when the check that
/// is emitted for the validator rejects it; `accepts` says what the
/// developer's predicates answer.
pub open spec fn violates(
    validator: Validator,
    accepts: spec_fn(Seq<char>, i64) -> bool,
    value: i64,
) -> bool {
    match rejection_of(validator) {
        Rejection::Below(bound) => value < bound,
        Rejection::Above(bound) => value > bound,
        Rejection::Refused => validator matches Validator::Custom(expr) && !accepts(expr@, value),
    }
}

/// The validators from `start` on, in declaration order: the variant of the
/// first one violated, or the value.
pub open spec fn validated_from(
    validators: Seq<Validator>,
    accepts: spec_fn(Seq<char>, i64) -> bool,
    start: int,
    value: i64,
) -> Result<i64, ErrorVariant>
    decreases validators.len() - start,
{
    if start < 0 || start >= validators.len() {
        Ok(value)
    } else if violates(validators[start], accepts, value) {
        Err(error_variant_of(validators[start]))
    } else {
        validated_from(validators, accepts, start + 1, value)
    }
}

/// What the constructor of a wrapper returns for a raw value.
pub open spec fn constructed(
    guard: Guard,
    custom: spec_fn(Seq<char>, i64) -> i64,
    accepts: spec_fn(Seq<char>, i64) -> bool,
    raw: i64,
) -> Result<i64, ErrorVariant> {
    validated_from(
        guard.validators(),
        accepts,
        0,
        sanitized_from(guard.sanitizers(), custom, 0, raw),
    )
}

/// Validation in steps agrees with validation as a whole, where each
/// awaited custom validator is answered as `accepts` says.
pub proof fn lemma_validation_steps_agree(
    validators: Seq<Validator>,
    accepts: spec_fn(Seq<char>, i64) -> bool,
    start: int,
    value: i64,
)
    requires
        0 <= start,
        validators.len() <= usize::MAX,
    ensures
        match run_validators(validators, start, value) {
            Outcome::Constructed(inner) => validated_from(validators, accepts, start, value) == Ok::<
                i64,
                ErrorVariant,
            >(inner) && inner == value,
            Outcome::Rejected(variant) => validated_from(validators, accepts, start, value) == Err::<
                i64,
                ErrorVariant,
            >(variant),
            Outcome::AwaitSanitizer { .. } => false,
            Outcome::AwaitValidator { index, value: judged } => {
                &&& start <= index < validators.len()
                &&& judged == value
                &&& validators[index as int] is Custom
                &&& validated_from(validators, accepts, start, value) == if accepts(
                    validators[index as int]->Custom_0@,
                    value,
                ) {
                    validated_from(validators, accepts, index + 1, value)
                } else {
                    Err(ErrorVariant::Invalid)
                }
            },
        },
    decreases validators.len() - start,
{
    if start < validators.len() {
        match validators[start] {
            Validator::Custom(_) => {},
            _ => {
                lemma_validation_steps_agree(validators, accepts, start + 1, value);
            },
        }
    }
}

/// Construction in steps agrees with construction as a whole, where each
/// awaited custom rule is answered as `custom` and `accepts` say.
pub proof fn lemma_construction_steps_agree(
    sanitizers: Seq<Sanitizer>,
    validators: Seq<Validator>,
    custom: spec_fn(Seq<char>, i64) -> i64,
    accepts: spec_fn(Seq<char>, i64) -> bool,
    start: int,
    value: i64,
)
    requires
        0 <= start,
        sanitizers.len() <= usize::MAX,
        validators.len() <= usize::MAX,
    ensures
        ({
            let whole = validated_from(
                validators,
                accepts,
                0,
                sanitized_from(sanitizers, custom, start, value),
            );
            match run_sanitizers(sanitizers, validators, start, value) {
                Outcome::Constructed(inner) => whole == Ok::<i64, ErrorVariant>(inner),
                Outcome::Rejected(variant) => whole == Err::<i64, ErrorVariant>(variant),
                Outcome::AwaitSanitizer { index, value: input } => {
                    &&& start <= index < sanitizers.len()
                    &&& sanitizers[index as int] is Custom
                    &&& sanitized_from(sanitizers, custom, start, value) == sanitized_from(
                        sanitizers,
                        custom,
                        index + 1,
                        custom(sanitizers[index as int]->Custom_0@, input),
                    )
                },
                Outcome::AwaitValidator { index, value: judged } => {
                    &&& index < validators.len()
                    &&& judged == sanitized_from(sanitizers, custom, start, value)
                    &&& validators[index as int] is Custom
                    &&& whole == if accepts(validators[index as int]->Custom_0@, judged) {
                        validated_from(validators, accepts, index + 1, judged)
                    } else {
                        Err(ErrorVariant::Invalid)
                    }
                },
            }
        }),
    decreases sanitizers.len() - start,
{
    if start < sanitizers.len() {
        match sanitizers[start] {
            Sanitizer::Clamp { min, max } => {
                lemma_construction_steps_agree(
                    sanitizers,
                    validators,
                    custom,
                    accepts,
                    start + 1,
                    clamp_value(value, min, max),
                );
            },
            Sanitizer::Custom(_) => {},
        }
    } else {
        lemma_validation_steps_agree(validators, accepts, 0, value);
    }
}

/// A wrapper without validation is constructed from every raw value, and
/// holds the raw value with every sanitizer applied in order.
pub proof fn lemma_infallible_round_trip(
    guard: Guard,
    custom: spec_fn(Seq<char>, i64) -> i64,
    accepts: spec_fn(Seq<char>, i64) -> bool,
    raw: i64,
)
    requires
        guard is WithoutValidation,
    ensures
        constructed(guard, custom, accepts, raw) == Ok::<i64, ErrorVariant>(
            sanitized_from(guard.sanitizers(), custom, 0, raw),
        ),
{
}

/// Without validators no step of a construction rejects or waits for a
/// validator.
pub proof fn lemma_infallible_never_rejects(sanitizers: Seq<Sanitizer>, start: int, value: i64)
    ensures
        !(run_sanitizers(sanitizers, Seq::empty(), start, value) is Rejected),
        !(run_sanitizers(sanitizers, Seq::empty(), start, value) is AwaitValidator),
    decreases sanitizers.len() - start,
{
    if 0 <= start < sanitizers.len() {
        match sanitizers[start] {
            Sanitizer::Clamp { min, max } => {
                lemma_infallible_never_rejects(sanitizers, start + 1, clamp_value(value, min, max));
            },
            Sanitizer::Custom(_) => {},
        }
    }
}

/// Where the value passes every validator from `start` up to `failing` and
/// violates that one, validation reports that one's variant.
pub proof fn lemma_first_violation_from(
    validators: Seq<Validator>,
    accepts: spec_fn(Seq<char>, i64) -> bool,
    start: int,
    failing: int,
    value: i64,
)
    requires
        0 <= start <= failing < validators.len(),
        violates(validators[failing], accepts, value),
        forall|j: int| start <= j < failing ==> !violates(#[trigger] validators[j], accepts, value),
    ensures
        validated_from(validators, accepts, start, value) == Err::<i64, ErrorVariant>(
            error_variant_of(validators[failing]),
        ),
    decreases failing - start,
{
    if start < failing {
        lemma_first_violation_from(validators, accepts, start + 1, failing, value);
    }
}

/// Where the sanitized value violates a validator and none before it, the
/// constructor returns exactly that validator's variant, and no wrapper.
pub proof fn lemma_first_violation_is_reported(
    guard: Guard,
    custom: spec_fn(Seq<char>, i64) -> i64,
    accepts: spec_fn(Seq<char>, i64) -> bool,
    raw: i64,
    failing: int,
)
    requires
        0 <= failing < guard.validators().len(),
        violates(
            guard.validators()[failing],
            accepts,
            sanitized_from(guard.sanitizers(), custom, 0, raw),
        ),
        forall|j: int|
            0 <= j < failing ==> !violates(
                #[trigger] guard.validators()[j],
                accepts,
                sanitized_from(guard.sanitizers(), custom, 0, raw),
            ),
    ensures
        constructed(guard, custom, accepts, raw) == Err::<i64, ErrorVariant>(
            error_variant_of(guard.validators()[failing]),
        ),
{
    lemma_first_violation_from(
        guard.validators(),
        accepts,
        0,
        failing,
        sanitized_from(guard.sanitizers(), custom, 0, raw),
    );
}

/// Every sanitizer is a clamp whose lower bound does not exceed its upper
/// bound.
pub open spec fn only_clamps(sanitizers: Seq<Sanitizer>) -> bool {
    forall|i: int|
        0 <= i < sanitizers.len() ==> match #[trigger] sanitizers[i] {
            Sanitizer::Clamp { min, max } => min <= max,
            Sanitizer::Custom(_) => false,
        }
}

/// The range that a chain of clamps, from `start` on, brings every value
/// into.
pub open spec fn clamp_range(sanitizers: Seq<Sanitizer>, start: int) -> (i64, i64)
    decreases sanitizers.len() - start,
{
    if start < 0 || start >= sanitizers.len() {
        (i64::MIN, i64::MAX)
    } else {
        let rest = clamp_range(sanitizers, start + 1);
        match sanitizers[start] {
            Sanitizer::Clamp { min, max } => (
                clamp_value(min, rest.0, rest.1),
                clamp_value(max, rest.0, rest.1),
            ),
            Sanitizer::Custom(_) => rest,
        }
    }
}

/// A chain of clamps is one clamp.
pub proof fn lemma_clamp_chain(
    sanitizers: Seq<Sanitizer>,
    custom: spec_fn(Seq<char>, i64) -> i64,
    start: int,
    value: i64,
)
    requires
        only_clamps(sanitizers),
        0 <= start,
    ensures
        clamp_range(sanitizers, start).0 <= clamp_range(sanitizers, start).1,
        sanitized_from(sanitizers, custom, start, value) == clamp_value(
            value,
            clamp_range(sanitizers, start).0,
            clamp_range(sanitizers, start).1,
        ),
    decreases sanitizers.len() - start,
{
    if start < sanitizers.len() {
        match sanitizers[start] {
            Sanitizer::Clamp { min, max } => {
                lemma_clamp_chain(sanitizers, custom, start + 1, clamp_value(value, min, max));
            },
            Sanitizer::Custom(_) => {},
        }
    }
}

/// Sanitizing a sanitized value changes nothing, where every sanitizer is a
/// clamp with ordered bounds.
pub proof fn lemma_sanitizing_is_idempotent(
    sanitizers: Seq<Sanitizer>,
    custom: spec_fn(Seq<char>, i64) -> i64,
    raw: i64,
)
    requires
        only_clamps(sanitizers),
    ensures
        sanitized_from(sanitizers, custom, 0, sanitized_from(sanitizers, custom, 0, raw))
            == sanitized_from(sanitizers, custom, 0, raw),
{
    lemma_clamp_chain(sanitizers, custom, 0, raw);
    lemma_clamp_chain(sanitizers, custom, 0, sanitized_from(sanitizers, custom, 0, raw));
}

} // verus!
