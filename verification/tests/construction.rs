use nutype_macros::construct::{construct, resume_sanitizing, resume_validating, Outcome};
use nutype_macros::gen::ErrorVariant;
use nutype_macros::models::{Guard, Sanitizer, Validator};

fn bounded(clamp_min: i64, clamp_max: i64) -> Guard {
    Guard::WithValidation {
        sanitizers: vec![Sanitizer::Clamp { min: clamp_min, max: clamp_max }],
        validators: vec![Validator::Min(0), Validator::Max(100)],
    }
}

#[test]
fn value_on_the_upper_bound_passes() {
    let guard = bounded(-1000, 1000);
    assert_eq!(construct(&guard, 100), Outcome::Constructed(100));
    assert_eq!(construct(&guard, 0), Outcome::Constructed(0));
}

#[test]
fn value_past_a_bound_is_rejected_with_that_bound_s_variant() {
    let guard = bounded(-1000, 1000);
    assert_eq!(construct(&guard, 150), Outcome::Rejected(ErrorVariant::TooBig));
    assert_eq!(construct(&guard, 101), Outcome::Rejected(ErrorVariant::TooBig));
    assert_eq!(construct(&guard, -1), Outcome::Rejected(ErrorVariant::TooSmall));
    assert_eq!(construct(&guard, -5000), Outcome::Rejected(ErrorVariant::TooSmall));
}

#[test]
fn clamp_to_the_bound_then_validate_succeeds() {
    let guard = bounded(-1000, 100);
    assert_eq!(construct(&guard, 150), Outcome::Constructed(100));
    assert_eq!(construct(&guard, 200), Outcome::Constructed(100));
    assert_eq!(construct(&guard, 200).into_inner(), Some(100));
}

#[test]
fn first_violated_validator_wins() {
    let guard = Guard::WithValidation {
        sanitizers: vec![],
        validators: vec![Validator::Max(10), Validator::Min(20)],
    };
    assert_eq!(construct(&guard, 15), Outcome::Rejected(ErrorVariant::TooBig));
    assert_eq!(construct(&guard, 5), Outcome::Rejected(ErrorVariant::TooSmall));
    assert_eq!(construct(&guard, 5).into_inner(), None);
}

#[test]
fn infallible_wrapper_holds_the_sanitized_value() {
    let guard = Guard::WithoutValidation {
        sanitizers: vec![Sanitizer::Clamp { min: -3, max: 7 }],
    };
    assert_eq!(construct(&guard, i64::MIN).into_inner(), Some(-3));
    assert_eq!(construct(&guard, 4).into_inner(), Some(4));
    assert_eq!(construct(&guard, i64::MAX).into_inner(), Some(7));
    let bare = Guard::WithoutValidation { sanitizers: vec![] };
    assert_eq!(construct(&bare, 42), Outcome::Constructed(42));
}

#[test]
fn sanitizing_twice_changes_nothing() {
    let guard = Guard::WithoutValidation {
        sanitizers: vec![
            Sanitizer::Clamp { min: 0, max: 10 },
            Sanitizer::Clamp { min: 5, max: 30 },
        ],
    };
    for raw in [-100, 0, 3, 5, 7, 10, 20, 40] {
        let once = construct(&guard, raw).into_inner().unwrap();
        let twice = construct(&guard, once).into_inner().unwrap();
        assert_eq!(once, twice);
    }
    assert_eq!(construct(&guard, 3), Outcome::Constructed(5));
    assert_eq!(construct(&guard, 40), Outcome::Constructed(10));
}

#[test]
fn custom_rules_are_awaited_and_resumed() {
    let guard = Guard::WithValidation {
        sanitizers: vec![
            Sanitizer::Clamp { min: 0, max: 50 },
            Sanitizer::Custom("|x| x * 2".to_string()),
        ],
        validators: vec![
            Validator::Max(90),
            Validator::Custom("|x| x % 2 == 0".to_string()),
            Validator::Min(10),
        ],
    };
    assert_eq!(construct(&guard, 70), Outcome::AwaitSanitizer { index: 1, value: 50 });
    assert_eq!(resume_sanitizing(&guard, 1, 100), Outcome::Rejected(ErrorVariant::TooBig));
    assert_eq!(resume_sanitizing(&guard, 1, 8), Outcome::AwaitValidator { index: 1, value: 8 });
    assert_eq!(
        resume_validating(&guard, 1, 8, false),
        Outcome::Rejected(ErrorVariant::Invalid)
    );
    assert_eq!(
        resume_validating(&guard, 1, 8, true),
        Outcome::Rejected(ErrorVariant::TooSmall)
    );
    assert_eq!(resume_validating(&guard, 1, 12, true), Outcome::Constructed(12));
    assert_eq!(resume_validating(&guard, 7, 12, true), Outcome::Constructed(12));
    assert_eq!(resume_sanitizing(&guard, 9, 95), Outcome::Rejected(ErrorVariant::TooBig));
}

fn key(value: f64) -> i64 {
    let bits = value.to_bits() as i64;
    if bits < 0 {
        bits ^ i64::MAX
    } else {
        bits
    }
}

#[test]
fn keys_order_as_the_numbers_do() {
    let numbers = [-1000.0, -1.5, -0.25, 0.0, 0.25, 99.999, 100.0, 100.001, 150.0, 1000.0];
    for pair in numbers.windows(2) {
        assert!(key(pair[0]) < key(pair[1]));
    }
}

#[test]
fn floating_point_bounds_are_exclusive_of_the_bound_itself() {
    let guard = Guard::WithValidation {
        sanitizers: vec![Sanitizer::Clamp { min: key(-1000.0), max: key(1000.0) }],
        validators: vec![Validator::Min(key(0.0)), Validator::Max(key(100.0))],
    };
    assert_eq!(construct(&guard, key(100.0)), Outcome::Constructed(key(100.0)));
    assert_eq!(construct(&guard, key(0.0)), Outcome::Constructed(key(0.0)));
    assert_eq!(construct(&guard, key(99.5)), Outcome::Constructed(key(99.5)));
    assert_eq!(construct(&guard, key(100.001)), Outcome::Rejected(ErrorVariant::TooBig));
    assert_eq!(construct(&guard, key(150.0)), Outcome::Rejected(ErrorVariant::TooBig));
    assert_eq!(construct(&guard, key(-0.001)), Outcome::Rejected(ErrorVariant::TooSmall));
    assert_eq!(construct(&guard, key(-5000.0)), Outcome::Rejected(ErrorVariant::TooSmall));

    let clamped = Guard::WithValidation {
        sanitizers: vec![Sanitizer::Clamp { min: key(-1000.0), max: key(100.0) }],
        validators: vec![Validator::Min(key(0.0)), Validator::Max(key(100.0))],
    };
    assert_eq!(construct(&clamped, key(150.0)), Outcome::Constructed(key(100.0)));
    assert_eq!(construct(&clamped, key(200.0)), Outcome::Constructed(key(100.0)));
}
