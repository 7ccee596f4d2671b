use olp_storage::circuits::{circuit_key, duration_ms, parse_boolean_response};
use olp_storage::duration::Duration;

#[test]
fn rejects_unsafe_durations() {
    assert!(duration_ms(Duration::zero()).is_err());
}

#[test]
fn circuit_durations_are_whole_milliseconds() {
    assert_eq!(duration_ms(Duration::from_millis(1_500)).unwrap(), 1_500);
    assert_eq!(duration_ms(Duration::new(2, 999_999)).unwrap(), 2_000);
    assert!(duration_ms(Duration::new(0, 999_999)).is_err());
}

#[test]
fn circuit_scripts_answer_zero_or_one() {
    assert_eq!(parse_boolean_response(0).unwrap(), false);
    assert_eq!(parse_boolean_response(1).unwrap(), true);
    assert!(parse_boolean_response(2).is_err());
}

#[test]
fn circuit_keys_name_the_target() {
    assert_eq!(
        circuit_key("olp:v2:circuits", 0x0123_4567_89ab_cdef_0123_4567_89ab_cdef),
        "olp:v2:circuits:01234567-89ab-cdef-0123-456789abcdef"
    );
}
