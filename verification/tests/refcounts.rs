use braw::engine::{ClipProps, Engine, ObjectKind};
use braw::facade::{Clip, Factory};
use braw::handle::HandleRef;
use braw::status::ErrorKind;
use braw::variant::Float32;

fn plain_clip() -> ClipProps {
    ClipProps {
        width: 1920,
        height: 1080,
        frame_rate: Float32(24.0f32.to_bits()),
        frame_count: 48,
        audio: None,
        metadata: Vec::new(),
    }
}

// the net reference-count change is zero once every wrapper has been
// dropped exactly once: no leak, no double release, observed on the mock
// object counter of the engine table
#[test]
fn balanced_wrapper_lifecycles_leave_no_count_behind() {
    let mut e = Engine::new();
    let factory = Factory::new_from_path(&mut e, "/library").unwrap();
    let f_id = factory.raw_id();
    assert_eq!(e.ref_count(f_id), 1);

    let codec = factory.create_codec(&mut e).unwrap();
    let c_id = codec.raw_id();
    assert_eq!(e.ref_count(c_id), 1);

    e.prepare_clip(plain_clip());
    let clip = codec.open_clip(&mut e, "/clip").unwrap();
    let clip_id = clip.raw_id();
    assert_eq!(e.ref_count(clip_id), 1);

    // the only legal duplication path increments first
    let clip_again = Clip::new_ref(&mut e, clip_id);
    assert_eq!(e.ref_count(clip_id), 2);
    let clip_third = Clip::new_ref(&mut e, clip_id);
    assert_eq!(e.ref_count(clip_id), 3);

    // each wrapper owes exactly one decrement, and release consumes it
    clip_third.release(&mut e);
    assert_eq!(e.ref_count(clip_id), 2);
    clip_again.release(&mut e);
    assert_eq!(e.ref_count(clip_id), 1);
    clip.release(&mut e);
    assert_eq!(e.ref_count(clip_id), 0);

    codec.release(&mut e);
    assert_eq!(e.ref_count(c_id), 0);
    factory.release(&mut e);
    assert_eq!(e.ref_count(f_id), 0);
}

#[test]
fn wrap_does_not_increment_and_new_ref_does() {
    let mut e = Engine::new();
    let factory = Factory::new_from_path(&mut e, "/library").unwrap();
    let codec = factory.create_codec(&mut e).unwrap();
    let c_id = codec.raw_id();
    assert_eq!(e.ref_count(c_id), 1);

    let h = HandleRef::new_ref(&mut e, c_id, ObjectKind::Codec);
    assert_eq!(e.ref_count(c_id), 2);
    h.release(&mut e);
    assert_eq!(e.ref_count(c_id), 1);

    codec.release(&mut e);
    factory.release(&mut e);
}

#[test]
fn wrapping_the_null_handle_fails_with_null_handle() {
    let e = Engine::new();
    let r = HandleRef::wrap(&e, 0, ObjectKind::Factory);
    assert!(matches!(r, Err(ErrorKind::NullHandle)));
}

#[test]
fn factory_unavailable_yields_null_handle() {
    let mut e = Engine::new();
    e.set_factory_available(false);
    let r = Factory::new_from_path(&mut e, "/library");
    assert!(matches!(r, Err(ErrorKind::NullHandle)));
}
