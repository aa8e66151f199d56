//! The whole generation of one wrapper: the rules are checked and
//! classified, the requested capabilities gathered, and the artifact
//! assembled. The first stage that fails stops the generation with its
//! diagnostic, and nothing is emitted.

use vstd::prelude::*;
use crate::gen::{artifact_matches, gen_nutype_for_float, Artifact, Visibility};
use crate::models::{ConfigError, DeriveTrait, FloatType, Guard, RawGuard, Spanned};
use crate::traits::{blocks_assemble, irregular_part, is_block_error};
use crate::validate::{
    all_distinct, all_supported, classified, is_duplicate_sanitizer_error,
    is_duplicate_validator_error, is_first_unsupported_error, requested_capabilities,
    sanitizer_codes, unique_in_order, validate_any_derive_traits, validate_any_guard,
    validator_codes,
};

verus! {

/// The artifact is the one of some guard that the rules classify to.
pub open spec fn emitted_for(
    artifact: Artifact,
    doc_attrs: Vec<String>,
    vis: Visibility,
    number_type: FloatType,
    wrapper_name: Seq<char>,
    raw_guard: RawGuard,
    derive_requests: Seq<Spanned<DeriveTrait>>,
    maybe_default_value: Option<String>,
) -> bool {
    exists|guard: Guard|
        {
            &&& classified(raw_guard, guard)
            &&& guard.wf()
            &&& #[trigger] artifact_matches(
                artifact,
                doc_attrs,
                vis,
                number_type,
                wrapper_name,
                guard,
                unique_in_order(requested_capabilities(derive_requests)),
                maybe_default_value,
            )
        }
}

/// Every stage of the generation succeeds on these inputs.
pub open spec fn can_generate(
    raw_guard: RawGuard,
    derive_requests: Seq<Spanned<DeriveTrait>>,
    has_default: bool,
) -> bool {
    let capabilities = irregular_part(unique_in_order(requested_capabilities(derive_requests)));
    &&& all_distinct(validator_codes(raw_guard.validators@))
    &&& all_distinct(sanitizer_codes(raw_guard.sanitizers@))
    &&& all_supported(derive_requests)
    &&& blocks_assemble(
        capabilities,
        capabilities.len() as int,
        has_default,
        raw_guard.validators@.len() > 0,
    )
}

/// The diagnostic is the one of the first stage that fails: a repeated
/// validator kind, then a repeated sanitizer kind, then a capability that no
/// wrapper can have, then a block that cannot be assembled.
pub open spec fn is_generation_error(
    error: ConfigError,
    wrapper_name: Seq<char>,
    raw_guard: RawGuard,
    derive_requests: Seq<Spanned<DeriveTrait>>,
    has_default: bool,
) -> bool {
    if !all_distinct(validator_codes(raw_guard.validators@)) {
        is_duplicate_validator_error(raw_guard.validators@, error)
    } else if !all_distinct(sanitizer_codes(raw_guard.sanitizers@)) {
        is_duplicate_sanitizer_error(raw_guard.sanitizers@, error)
    } else if !all_supported(derive_requests) {
        is_first_unsupported_error(derive_requests, error)
    } else {
        is_block_error(
            error,
            wrapper_name,
            irregular_part(unique_in_order(requested_capabilities(derive_requests))),
            has_default,
            raw_guard.validators@.len() > 0,
        )
    }
}

/// Generates one wrapper of a floating-point number from its description.
/// The artifact is emitted exactly where every stage succeeds; otherwise
/// the diagnostic of the first failing stage is returned and nothing is
/// emitted.
pub fn generate_float_wrapper(
    doc_attrs: Vec<String>,
    vis: Visibility,
    number_type: FloatType,
    wrapper_name: &str,
    raw_guard: RawGuard,
    derive_requests: Vec<Spanned<DeriveTrait>>,
    maybe_default_value: Option<String>,
) -> (emitted: Result<Artifact, ConfigError>)
    ensures
        (emitted is Ok) == can_generate(raw_guard, derive_requests@, maybe_default_value.is_some()),
        match emitted {
            Ok(artifact) => emitted_for(
                artifact,
                doc_attrs,
                vis,
                number_type,
                wrapper_name@,
                raw_guard,
                derive_requests@,
                maybe_default_value,
            ),
            Err(error) => is_generation_error(
                error,
                wrapper_name@,
                raw_guard,
                derive_requests@,
                maybe_default_value.is_some(),
            ),
        },
{
    let guard = match validate_any_guard(raw_guard) {
        Ok(guard) => guard,
        Err(error) => {
            return Err(error);
        },
    };
    let traits = match validate_any_derive_traits(&guard, derive_requests) {
        Ok(traits) => traits,
        Err(error) => {
            proof {
                lemma_unsupported_request(derive_requests@, error);
            }
            return Err(error);
        },
    };
    let emitted = gen_nutype_for_float(
        doc_attrs,
        vis,
        number_type,
        wrapper_name,
        guard,
        traits,
        maybe_default_value,
    );
    proof {
        let capabilities = irregular_part(
            unique_in_order(requested_capabilities(derive_requests@)),
        );
        if emitted is Err {
            let error = emitted->Err_0;
            let k = choose|k: int|
                {
                    &&& 0 <= k < capabilities.len()
                    &&& blocks_assemble(
                        capabilities,
                        k,
                        maybe_default_value.is_some(),
                        guard.spec_has_validation(),
                    )
                    &&& crate::traits::block_failure(
                        #[trigger] capabilities[k],
                        maybe_default_value.is_some(),
                        guard.spec_has_validation(),
                    ) == Some(error.kind)
                    &&& error.message@ == crate::traits::block_failure_message(
                        error.kind,
                        wrapper_name@,
                    )
                };
            assert(crate::traits::block_failure(
                capabilities[k],
                maybe_default_value.is_some(),
                guard.spec_has_validation(),
            ).is_some());
        }
    }
    emitted
}

/// A diagnostic for an unsupported request shows that not every request is
/// supported.
proof fn lemma_unsupported_request(requests: Seq<Spanned<DeriveTrait>>, error: ConfigError)
    requires
        is_first_unsupported_error(requests, error),
    ensures
        !all_supported(requests),
{
    let k = choose|k: int|
        {
            &&& 0 <= k < requests.len()
            &&& all_supported(requests.take(k))
            &&& crate::validate::any_derive_trait_of((#[trigger] requests[k]).item).is_none()
            &&& crate::validate::is_unsupported_trait_error(requests[k].span, error)
        };
    assert(crate::validate::any_derive_trait_of(requests[k].item).is_none());
}

} // verus!
