use braw::status::Error;
use braw::variant::{
    Float32, SafeArray, Value, VariantDecoder, TAG_EMPTY, TAG_FLOAT32, TAG_S16, TAG_S32,
    TAG_STRING, TAG_U16, TAG_U32, TAG_U8,
};

fn clean_array(element_tag: u32, lower: i32, upper: i32, data: Vec<u32>) -> SafeArray {
    SafeArray {
        element_tag,
        lower_bound: lower,
        upper_bound: upper,
        data,
        vartype_status: 0,
        upper_bound_status: 0,
        lower_bound_status: 0,
        access_status: 0,
        unaccess_status: 0,
        lock_count: 0,
        locks_taken: 0,
        unlocks_taken: 0,
    }
}

#[test]
fn scalar_tags_decode_to_their_variants() {
    assert_eq!(VariantDecoder::decode_scalar(TAG_U8, 200), Some(Value::UInt8(200)));
    assert_eq!(VariantDecoder::decode_scalar(TAG_U16, 50000), Some(Value::UInt16(50000)));
    assert_eq!(
        VariantDecoder::decode_scalar(TAG_U32, 4000000000),
        Some(Value::UInt32(4000000000))
    );
    assert_eq!(VariantDecoder::decode_scalar(TAG_S16, 7), Some(Value::Int16(7)));
    assert_eq!(VariantDecoder::decode_scalar(TAG_S32, 9), Some(Value::Int32(9)));
    let bits = 1.5f32.to_bits();
    assert_eq!(
        VariantDecoder::decode_scalar(TAG_FLOAT32, bits),
        Some(Value::Float(Float32(bits)))
    );
}

#[test]
fn scalar_decoding_reinterprets_the_low_bits() {
    // the storage cell is reinterpreted as the tagged type: two's
    // complement for the signed kinds, low bits for the narrow kinds
    assert_eq!(VariantDecoder::decode_scalar(TAG_S16, 0xFFFF), Some(Value::Int16(-1)));
    assert_eq!(VariantDecoder::decode_scalar(TAG_S16, 0x8000), Some(Value::Int16(-32768)));
    assert_eq!(VariantDecoder::decode_scalar(TAG_S32, 0xFFFFFFFF), Some(Value::Int32(-1)));
    assert_eq!(
        VariantDecoder::decode_scalar(TAG_S32, 0x80000000),
        Some(Value::Int32(i32::MIN))
    );
    assert_eq!(VariantDecoder::decode_scalar(TAG_U8, 0x1FF), Some(Value::UInt8(0xFF)));
    assert_eq!(VariantDecoder::decode_scalar(TAG_U16, 0x10001), Some(Value::UInt16(1)));
}

#[test]
fn unrecognized_tags_yield_no_value() {
    assert_eq!(VariantDecoder::decode_scalar(TAG_EMPTY, 5), None);
    assert_eq!(VariantDecoder::decode_scalar(TAG_STRING, 5), None);
    assert_eq!(VariantDecoder::decode_scalar(999, 5), None);
}

#[test]
fn decode_array_extracts_bounded_u32_array_and_locks_once() {
    let mut arr = clean_array(TAG_U32, 0, 3, vec![1, 2, 3, 4]);
    let r = VariantDecoder::decode_array(&mut arr);
    assert_eq!(
        r,
        Ok(Some(Value::Array(vec![
            Value::UInt32(1),
            Value::UInt32(2),
            Value::UInt32(3),
            Value::UInt32(4),
        ])))
    );
    // the lock/unlock pair ran exactly once each, and no lock is left
    assert_eq!(arr.locks_taken, 1);
    assert_eq!(arr.unlocks_taken, 1);
    assert_eq!(arr.lock_count, 0);
}

#[test]
fn decode_array_respects_nonzero_lower_bound() {
    let mut arr = clean_array(TAG_S16, 2, 4, vec![0xFFFF, 0, 25]);
    let r = VariantDecoder::decode_array(&mut arr);
    assert_eq!(
        r,
        Ok(Some(Value::Array(vec![
            Value::Int16(-1),
            Value::Int16(0),
            Value::Int16(25),
        ])))
    );
}

#[test]
fn decode_array_of_non_scalar_elements_yields_no_value() {
    let mut arr = clean_array(TAG_STRING, 0, 1, vec![7, 8]);
    assert_eq!(VariantDecoder::decode_array(&mut arr), Ok(None));
    // the lock was still taken and released exactly once
    assert_eq!(arr.locks_taken, 1);
    assert_eq!(arr.unlocks_taken, 1);
    assert_eq!(arr.lock_count, 0);
}

#[test]
fn decode_array_propagates_descriptor_read_failures() {
    let mut arr = clean_array(TAG_U32, 0, 0, vec![1]);
    arr.vartype_status = -3;
    assert_eq!(VariantDecoder::decode_array(&mut arr), Err(Error { result: -3 }));
    // the failure came before the lock: no lock was taken
    assert_eq!(arr.locks_taken, 0);
    assert_eq!(arr.unlocks_taken, 0);

    let mut arr = clean_array(TAG_U32, 0, 0, vec![1]);
    arr.upper_bound_status = 4;
    assert_eq!(VariantDecoder::decode_array(&mut arr), Err(Error { result: 4 }));

    let mut arr = clean_array(TAG_U32, 0, 0, vec![1]);
    arr.lower_bound_status = 6;
    assert_eq!(VariantDecoder::decode_array(&mut arr), Err(Error { result: 6 }));

    let mut arr = clean_array(TAG_U32, 0, 0, vec![1]);
    arr.access_status = -8;
    assert_eq!(VariantDecoder::decode_array(&mut arr), Err(Error { result: -8 }));
    assert_eq!(arr.locks_taken, 0);
    assert_eq!(arr.unlocks_taken, 0);
}

#[test]
fn decode_array_pairs_the_lock_even_when_the_unlock_reports_failure() {
    let mut arr = clean_array(TAG_U32, 0, 1, vec![1, 2]);
    arr.unaccess_status = -7;
    assert_eq!(VariantDecoder::decode_array(&mut arr), Err(Error { result: -7 }));
    // the lock was taken and the release was attempted: paired exactly once
    assert_eq!(arr.locks_taken, 1);
    assert_eq!(arr.unlocks_taken, 1);
    assert_eq!(arr.lock_count, 0);
}

#[test]
fn decode_array_of_empty_range_yields_empty_array() {
    let mut arr = clean_array(TAG_U8, 0, -1, vec![]);
    assert_eq!(VariantDecoder::decode_array(&mut arr), Ok(Some(Value::Array(vec![]))));
}
