use braw::engine::{ClipProps, Engine, MetaEntry};
use braw::facade::Factory;
use braw::variant::{
    Float32, SafeArray, Value, Variant, TAG_EMPTY, TAG_SAFE_ARRAY, TAG_STRING, TAG_U16, TAG_U32,
};

fn scalar_variant(tag: u32, bits: u32) -> Variant {
    Variant { tag, scalar: bits, text: String::new(), array: None }
}

fn text_variant(s: &str) -> Variant {
    Variant { tag: TAG_STRING, scalar: 0, text: s.to_string(), array: None }
}

fn array_variant(element_tag: u32, data: Vec<u32>) -> Variant {
    let upper = data.len() as i32 - 1;
    Variant {
        tag: TAG_SAFE_ARRAY,
        scalar: 0,
        text: String::new(),
        array: Some(SafeArray {
            element_tag,
            lower_bound: 0,
            upper_bound: upper,
            data,
            vartype_status: 0,
            upper_bound_status: 0,
            lower_bound_status: 0,
            access_status: 0,
            unaccess_status: 0,
            lock_count: 0,
            locks_taken: 0,
            unlocks_taken: 0,
        }),
    }
}

fn entry(key: &str, value: Variant) -> MetaEntry {
    MetaEntry { advance_status: 0, key_status: 0, key: key.to_string(), data_status: 0, value }
}

fn end_entry() -> MetaEntry {
    MetaEntry {
        advance_status: 1,
        key_status: 0,
        key: String::new(),
        data_status: 0,
        value: scalar_variant(TAG_EMPTY, 0),
    }
}

fn clip_with(metadata: Vec<MetaEntry>) -> ClipProps {
    ClipProps {
        width: 1920,
        height: 1080,
        frame_rate: Float32(25.0f32.to_bits()),
        frame_count: 10,
        audio: None,
        metadata,
    }
}

fn open(e: &mut Engine, props: ClipProps) -> braw::facade::Clip {
    let factory = Factory::new_from_path(e, "/library").unwrap();
    let codec = factory.create_codec(e).unwrap();
    e.prepare_clip(props);
    codec.open_clip(e, "/clip").unwrap()
}

// three valid entries, then the end-of-sequence sentinel: exactly three
// items in order, then nothing, idempotently
#[test]
fn three_entries_then_sentinel_yield_three_items_and_exhaust() {
    let mut e = Engine::new();
    let clip = open(
        &mut e,
        clip_with(vec![
            entry("iso", scalar_variant(TAG_U16, 800)),
            entry("camera", text_variant("mini pro")),
            entry("levels", array_variant(TAG_U32, vec![1, 2, 3, 4])),
            end_entry(),
        ]),
    );
    let it = clip.get_metadata_iterator(&mut e).unwrap();

    let (k1, v1) = it.next(&mut e).unwrap();
    assert_eq!(k1, "iso".to_string());
    assert_eq!(v1, Value::UInt16(800));

    let (k2, v2) = it.next(&mut e).unwrap();
    assert_eq!(k2, "camera".to_string());
    assert_eq!(v2, Value::Text("mini pro".to_string()));

    let (k3, v3) = it.next(&mut e).unwrap();
    assert_eq!(k3, "levels".to_string());
    assert_eq!(
        v3,
        Value::Array(vec![
            Value::UInt32(1),
            Value::UInt32(2),
            Value::UInt32(3),
            Value::UInt32(4),
        ])
    );

    assert!(it.next(&mut e).is_none());
    assert!(it.next(&mut e).is_none());
    assert!(it.next(&mut e).is_none());
}

#[test]
fn running_off_the_end_exhausts_too() {
    let mut e = Engine::new();
    let clip = open(&mut e, clip_with(vec![entry("one", scalar_variant(TAG_U16, 1))]));
    let it = clip.get_metadata_iterator(&mut e).unwrap();
    assert!(it.next(&mut e).is_some());
    assert!(it.next(&mut e).is_none());
    assert!(it.next(&mut e).is_none());
}

#[test]
fn undecodable_entries_are_skipped_silently() {
    let mut e = Engine::new();
    let clip = open(
        &mut e,
        clip_with(vec![
            entry("mystery", scalar_variant(77, 5)),
            entry("empty", scalar_variant(TAG_EMPTY, 0)),
            entry("strings", array_variant(TAG_STRING, vec![9])),
            entry("kept", scalar_variant(TAG_U16, 7)),
            end_entry(),
        ]),
    );
    let it = clip.get_metadata_iterator(&mut e).unwrap();
    let (k, v) = it.next(&mut e).unwrap();
    assert_eq!(k, "kept".to_string());
    assert_eq!(v, Value::UInt16(7));
    assert!(it.next(&mut e).is_none());
}

#[test]
fn a_native_failure_mid_iteration_ends_the_sequence() {
    let mut e = Engine::new();
    let mut broken = entry("broken", scalar_variant(TAG_U16, 3));
    broken.key_status = -4;
    let clip = open(
        &mut e,
        clip_with(vec![
            entry("ok", scalar_variant(TAG_U16, 2)),
            broken,
            entry("never", scalar_variant(TAG_U16, 9)),
            end_entry(),
        ]),
    );
    let it = clip.get_metadata_iterator(&mut e).unwrap();
    assert!(it.next(&mut e).is_some());
    assert!(it.next(&mut e).is_none());
    assert!(it.next(&mut e).is_none());
}

#[test]
fn a_failing_array_read_ends_the_sequence() {
    let mut e = Engine::new();
    let mut bad = array_variant(TAG_U32, vec![1]);
    match &mut bad.array {
        Some(a) => a.access_status = -2,
        None => unreachable!(),
    }
    let clip = open(
        &mut e,
        clip_with(vec![entry("bad", bad), entry("never", scalar_variant(TAG_U16, 9)), end_entry()]),
    );
    let it = clip.get_metadata_iterator(&mut e).unwrap();
    assert!(it.next(&mut e).is_none());
    assert!(it.next(&mut e).is_none());
}

#[test]
fn an_empty_sequence_yields_nothing() {
    let mut e = Engine::new();
    let clip = open(&mut e, clip_with(vec![]));
    let it = clip.get_metadata_iterator(&mut e).unwrap();
    assert!(it.next(&mut e).is_none());
}
