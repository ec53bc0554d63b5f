use braw::status::{void_option_result, void_result, Error, StatusResult};

#[test]
fn decode_zero_is_success() {
    assert_eq!(StatusResult::decode(0), StatusResult::Success);
}

#[test]
fn decode_one_is_end_of_sequence() {
    assert_eq!(StatusResult::decode(1), StatusResult::EndOfSequence);
}

#[test]
fn decode_other_codes_are_failures_carrying_the_code() {
    assert_eq!(StatusResult::decode(2), StatusResult::Failure(2));
    assert_eq!(StatusResult::decode(-1), StatusResult::Failure(-1));
    assert_eq!(StatusResult::decode(i32::MIN), StatusResult::Failure(i32::MIN));
    assert_eq!(StatusResult::decode(i32::MAX), StatusResult::Failure(i32::MAX));
    assert_eq!(
        StatusResult::decode(-2147467259),
        StatusResult::Failure(-2147467259)
    );
}

#[test]
fn void_result_is_ok_exactly_on_zero() {
    assert_eq!(void_result(0), Ok(()));
    assert_eq!(void_result(1), Err(Error { result: 1 }));
    assert_eq!(void_result(-5), Err(Error { result: -5 }));
}

#[test]
fn void_option_result_maps_the_sentinel_to_none() {
    assert_eq!(void_option_result(0), Ok(Some(())));
    assert_eq!(void_option_result(1), Ok(None));
    assert_eq!(void_option_result(33), Err(Error { result: 33 }));
    assert_eq!(void_option_result(-9), Err(Error { result: -9 }));
}
