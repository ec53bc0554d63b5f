//! The typed pipeline surface: Factory, Codec, Clip, Job, Frame and the
//! data-bearing objects around them.
//!
//! Each type is an ownership wrapper ([`HandleRef`]) specialized to one
//! native interface kind, plus its typed operations. No algorithm lives
//! here beyond ownership and dispatch: every operation checks its native
//! status immediately and never constructs a handle from a failed call.

use vstd::prelude::*;
use crate::engine::{
    counts_bumped, misc_same, lemma_wf_update_same_kind, Engine, JobOp, JobState, ObjectKind,
    Payload,
};
use crate::handle::HandleRef;
use crate::iid::REFIID;
use crate::status::{Error, ErrorKind};

verus! {

/// The status code the model engine reports when an operation cannot be
/// carried out (an open call with nothing to open, a submit out of order).
pub const ENGINE_FAILURE_STATUS: i32 = -1;

/// A raw pixel layout selector for decoded frames, passed through to the
/// engine verbatim.
#[derive(Clone, Copy, Debug, PartialEq, Eq, Structural)]
pub struct ResourceFormat(pub u32);

/// Interleaved 8-bit RGBA.
pub const FORMAT_RGBAU8: u32 = 1;

/// Interleaved 8-bit BGRA.
pub const FORMAT_BGRAU8: u32 = 2;

/// Interleaved 16-bit RGB.
pub const FORMAT_RGBU16: u32 = 3;

/// Interleaved 16-bit RGBA.
pub const FORMAT_RGBAU16: u32 = 4;

/// Interleaved 16-bit BGRA.
pub const FORMAT_BGRAU16: u32 = 5;

/// Planar 16-bit RGB.
pub const FORMAT_RGBU16_PLANAR: u32 = 6;

/// Interleaved 32-bit float RGB.
pub const FORMAT_RGBF32: u32 = 7;

/// Planar 32-bit float RGB.
pub const FORMAT_RGBF32_PLANAR: u32 = 8;

/// Interleaved 32-bit float BGRA.
pub const FORMAT_BGRAF32: u32 = 9;

/// The entry point of the pipeline; its native operations are documented
/// thread-safe, so a factory may be shared freely.
pub struct Factory {
    h: HandleRef,
}

/// A codec instance: opens clips, owns the callback registration slot, and
/// is the barrier scope of `flush_jobs`.
pub struct Codec {
    h: HandleRef,
}

/// One opened clip.
pub struct Clip {
    h: HandleRef,
}

/// The audio capability of a clip that has one.
pub struct ClipAudio {
    h: HandleRef,
}

/// One unit of asynchronous work, attached to the resource it was created
/// from; results are delivered through the callback bridge, never by
/// polling.
pub struct Job {
    h: HandleRef,
}

/// One frame read from a clip.
pub struct Frame {
    h: HandleRef,
}

/// The decoded, processed pixels of a frame.
pub struct ProcessedImage {
    h: HandleRef,
}

/// Clip-wide processing attributes.
pub struct ClipProcessingAttributes {
    h: HandleRef,
}

/// Per-frame processing attributes.
pub struct FrameProcessingAttributes {
    h: HandleRef,
}

impl Factory {
    /// The slot of the owned object.
    pub closed spec fn id(self) -> usize {
        self.h.id()
    }

    /// The wrapper carries the interface kind this type stands for.
    pub closed spec fn kind_ok(self) -> bool {
        self.h.kind() == ObjectKind::Factory
    }

    /// The wrapper is typed to its interface kind and its object is live.
    pub open spec fn valid(self, e: Engine) -> bool {
        &&& self.kind_ok()
        &&& e.live(self.id(), ObjectKind::Factory)
    }

    /// Asks the engine for a factory instance; the library path only
    /// steers the native loader, which the model reduces to whether a
    /// factory is available at all. Fails with `NullHandle` exactly when
    /// the engine yields no object.
    pub fn new_from_path(e: &mut Engine, _path: &str) -> (r: Result<Factory, ErrorKind>)
        requires
            old(e).wf(),
            old(e).n_objects() < usize::MAX,
        ensures
            final(e).wf(),
            misc_same(*old(e), *final(e)),
            !old(e).factory_available ==> (r matches Err(k) && k == ErrorKind::NullHandle && *final(e) == *old(e)),
            old(e).factory_available ==> (r matches Ok(f) && f.valid(*final(e)) && f.id() == old(e).n_objects() && final(e).rc(f.id()) == 1 && final(e).n_objects() == old(e).n_objects()
                + 1),
    {
        let raw = e.create_factory();
        match HandleRef::wrap(e, raw, ObjectKind::Factory) {
            Ok(h) => Ok(Factory { h }),
            Err(k) => Err(k),
        }
    }

    /// Creates a codec instance with its callback slot empty. The model
    /// engine always grants this, so the call always succeeds.
    pub fn create_codec(&self, e: &mut Engine) -> (r: Result<Codec, Error>)
        requires
            old(e).wf(),
            self.valid(*old(e)),
            old(e).n_objects() < usize::MAX,
        ensures
            final(e).wf(),
            misc_same(*old(e), *final(e)),
            final(e).n_objects() == old(e).n_objects() + 1,
            final(e).counts@ == old(e).counts@.push(1),
            final(e).payloads@ == old(e).payloads@.push(
                Payload::CodecObj { registered: false },
            ),
            r matches Ok(c) && c.valid(*final(e)) && c.id() == old(e).n_objects() && final(e).rc(
                c.id(),
            ) == 1 && !final(e).codec_registered(c.id()),
    {
        let raw = e.install(Payload::CodecObj { registered: false });
        Ok(Codec { h: HandleRef::adopt(e, raw, ObjectKind::Codec) })
    }

    /// Releases the one reference this wrapper owns.
    pub fn release(self, e: &mut Engine)
        requires
            old(e).aligned(),
            self.valid(*old(e)),
        ensures
            counts_bumped(*old(e), *final(e), self.id() as int, -1),
            final(e).payloads@ == old(e).payloads@,
            misc_same(*old(e), *final(e)),
    {
        self.h.release(e);
    }

    /// The raw slot index of the owned object.
    pub fn raw_id(&self) -> (r: usize)
        ensures
            r == self.id(),
    {
        self.h.raw_id()
    }
}

impl Codec {
    /// The slot of the owned object.
    pub closed spec fn id(self) -> usize {
        self.h.id()
    }

    /// The wrapper carries the interface kind this type stands for.
    pub closed spec fn kind_ok(self) -> bool {
        self.h.kind() == ObjectKind::Codec
    }

    /// The wrapper is typed to its interface kind and its object is live.
    pub open spec fn valid(self, e: Engine) -> bool {
        &&& self.kind_ok()
        &&& e.live(self.id(), ObjectKind::Codec)
    }

    /// Opens the next clip the engine finds; the path only steers the
    /// engine's own file handling, which the model reduces to the queue of
    /// prepared clips. Succeeds if and only if a clip is there, and never
    /// constructs a handle from a failed open.
    pub fn open_clip(&self, e: &mut Engine, _path: &str) -> (r: Result<Clip, ErrorKind>)
        requires
            old(e).wf(),
            self.valid(*old(e)),
            old(e).n_objects() < usize::MAX,
        ensures
            final(e).wf(),
            old(e).prepared_clips@.len() == 0 ==> (r matches Err(err) && err == ErrorKind::Failure(
                Error { result: ENGINE_FAILURE_STATUS },
            ) && *final(e) == *old(e)),
            old(e).prepared_clips@.len() > 0 ==> {
                &&& r matches Ok(c) && c.valid(*final(e)) && c.id() == old(e).n_objects() && final(e).rc(c.id()) == 1 && final(e).clip_info(c.id()).0 == self.id() && final(e).clip_info(c.id()).1 == old(e).prepared_clips@[0]
                &&& final(e).n_objects() == old(e).n_objects() + 1
                &&& final(e).counts@ == old(e).counts@.push(1)
                &&& final(e).prepared_clips@ == old(e).prepared_clips@.drop_first()
                &&& final(e).pending@ == old(e).pending@
                &&& final(e).factory_available == old(e).factory_available
            },
    {
        if e.prepared_clips.len() == 0 {
            return Err(ErrorKind::Failure(Error { result: ENGINE_FAILURE_STATUS }));
        }
        let props = e.prepared_clips.remove(0);
        let codec_id = self.h.raw_id();
        let raw = e.install(Payload::ClipObj { codec_id, props });
        Ok(Clip { h: HandleRef::adopt(e, raw, ObjectKind::Clip) })
    }

    /// Installs or clears the callback adapter on this codec's one
    /// registration slot, replacing whatever was there; the scoped
    /// [`register_callback`](Self::register_callback) path is the safer
    /// alternative, since it refuses to overwrite a live registration.
    pub fn set_callback(&self, e: &mut Engine, install: bool) -> (r: Result<(), Error>)
        requires
            old(e).wf(),
            self.valid(*old(e)),
        ensures
            final(e).wf(),
            final(e).codec_registered(self.id()) == install,
            final(e).counts@ == old(e).counts@,
            final(e).payloads@ == old(e).payloads@.update(
                self.id() as int,
                Payload::CodecObj { registered: install },
            ),
            misc_same(*old(e), *final(e)),
            r matches Ok(u) && u == (),
    {
        e.set_codec_registered(self.h.raw_id(), install);
        Ok(())
    }

    /// Acquires this codec's single callback registration slot, returning
    /// the guard that must be used to give it back. Fails if and only if a
    /// registration is already installed: two concurrent registrations on
    /// one codec are refused, never overwritten.
    pub fn register_callback(&self, e: &mut Engine) -> (r: Result<CallbackRegistration, Error>)
        requires
            old(e).wf(),
            self.valid(*old(e)),
        ensures
            final(e).wf(),
            old(e).codec_registered(self.id()) ==> (r matches Err(err) && err == (Error {
                result: ENGINE_FAILURE_STATUS,
            }) && *final(e) == *old(e)),
            !old(e).codec_registered(self.id()) ==> {
                &&& r matches Ok(g) && g.codec_id() == self.id()
                &&& final(e).codec_registered(self.id())
                &&& final(e).counts@ == old(e).counts@
                &&& final(e).payloads@ == old(e).payloads@.update(
                    self.id() as int,
                    Payload::CodecObj { registered: true },
                )
                &&& misc_same(*old(e), *final(e))
            },
    {
        let id = self.h.raw_id();
        let registered = match &e.payloads[id] {
            Payload::CodecObj { registered } => *registered,
            _ => {
                proof {
                    assert(false);
                }
                false
            },
        };
        if registered {
            return Err(Error { result: ENGINE_FAILURE_STATUS });
        }
        e.set_codec_registered(id, true);
        Ok(CallbackRegistration { codec_id: id })
    }

    /// Releases the one reference this wrapper owns.
    pub fn release(self, e: &mut Engine)
        requires
            old(e).aligned(),
            self.valid(*old(e)),
        ensures
            counts_bumped(*old(e), *final(e), self.id() as int, -1),
            final(e).payloads@ == old(e).payloads@,
            misc_same(*old(e), *final(e)),
    {
        self.h.release(e);
    }

    /// The raw slot index of the owned object.
    pub fn raw_id(&self) -> (r: usize)
        ensures
            r == self.id(),
    {
        self.h.raw_id()
    }
}

impl Codec {
    /// Scoped registration: installs the callback adapter, runs the body,
    /// and always clears the registration again, on every exit path — the
    /// body gets the codec and the engine, and whatever it does, a codec
    /// that still stands afterwards has its registration slot empty. The
    /// guard of [`register_callback`](Self::register_callback) is the
    /// stronger-typed alternative when the body is not one closure.
    pub fn with_callback<V, F: FnOnce(&Codec, &mut Engine) -> V>(&self, e: &mut Engine, f: F) -> (r:
        V)
        requires
            old(e).wf(),
            self.valid(*old(e)),
            forall|c: &Codec, en: &mut Engine| #[trigger] f.requires((c, en)),
        ensures
            final(e).is_obj(self.id(), ObjectKind::Codec) ==> !final(e).codec_registered(
                self.id(),
            ),
    {
        let my_id = self.h.raw_id();
        let _ = self.set_callback(e, true);
        let v = f(self, e);
        e.clear_callback(my_id);
        v
    }
}

/// The guard of a codec's callback registration slot: acquiring it installs
/// the registration, and only giving it back clears it. The guard has no
/// clone, so the single-owner rule of the slot stands in the type system.
pub struct CallbackRegistration {
    codec_id: usize,
}

impl CallbackRegistration {
    /// The codec slot this registration is installed on.
    pub closed spec fn codec_id(self) -> usize {
        self.codec_id
    }

    /// Clears the registration and consumes the guard. The engine model
    /// dispatches notifications only through an explicit flush, so by
    /// return no notification is in flight on the old registration.
    pub fn unregister(self, e: &mut Engine) -> (r: Result<(), Error>)
        requires
            old(e).wf(),
            old(e).is_obj(self.codec_id(), ObjectKind::Codec),
        ensures
            final(e).wf(),
            !final(e).codec_registered(self.codec_id()),
            final(e).counts@ == old(e).counts@,
            final(e).payloads@ == old(e).payloads@.update(
                self.codec_id() as int,
                Payload::CodecObj { registered: false },
            ),
            misc_same(*old(e), *final(e)),
            r matches Ok(u) && u == (),
    {
        e.set_codec_registered(self.codec_id, false);
        Ok(())
    }
}

impl Clip {
    /// The slot of the owned object.
    pub closed spec fn id(self) -> usize {
        self.h.id()
    }

    /// The wrapper carries the interface kind this type stands for.
    pub closed spec fn kind_ok(self) -> bool {
        self.h.kind() == ObjectKind::Clip
    }

    /// The wrapper is typed to its interface kind and its object is live.
    pub open spec fn valid(self, e: Engine) -> bool {
        &&& self.kind_ok()
        &&& e.live(self.id(), ObjectKind::Clip)
    }

    /// Takes ownership of an un-owned outstanding reference on a raw clip.
    pub(crate) fn adopt(e: &Engine, raw: usize) -> (c: Clip)
        requires
            e.live(raw, ObjectKind::Clip),
        ensures
            c.id() == raw,
            c.valid(*e),
    {
        Clip { h: HandleRef::adopt(e, raw, ObjectKind::Clip) }
    }

    /// Produces a second owning wrapper over a raw clip obtained from
    /// elsewhere (a callback argument), incrementing first.
    pub fn new_ref(e: &mut Engine, raw: usize) -> (c: Clip)
        requires
            old(e).aligned(),
            old(e).live(raw, ObjectKind::Clip),
            old(e).rc(raw) < u64::MAX,
        ensures
            counts_bumped(*old(e), *final(e), raw as int, 1),
            final(e).payloads@ == old(e).payloads@,
            misc_same(*old(e), *final(e)),
            old(e).wf() ==> final(e).wf(),
            c.id() == raw,
            c.valid(*final(e)),
    {
        Clip { h: HandleRef::new_ref(e, raw, ObjectKind::Clip) }
    }

    /// The clip's frame width in pixels.
    pub fn get_width(&self, e: &Engine) -> (r: Result<u32, Error>)
        requires
            e.wf(),
            self.valid(*e),
        ensures
            r matches Ok(w) && w == e.clip_info(self.id()).1.width,
    {
        match &e.payloads[self.h.raw_id()] {
            Payload::ClipObj { props, .. } => Ok(props.width),
            _ => {
                proof {
                    assert(false);
                }
                Err(Error { result: ENGINE_FAILURE_STATUS })
            },
        }
    }

    /// The clip's frame height in pixels.
    pub fn get_height(&self, e: &Engine) -> (r: Result<u32, Error>)
        requires
            e.wf(),
            self.valid(*e),
        ensures
            r matches Ok(h) && h == e.clip_info(self.id()).1.height,
    {
        match &e.payloads[self.h.raw_id()] {
            Payload::ClipObj { props, .. } => Ok(props.height),
            _ => {
                proof {
                    assert(false);
                }
                Err(Error { result: ENGINE_FAILURE_STATUS })
            },
        }
    }

    /// The clip's frame rate, as the raw bit pattern of a 32-bit float.
    pub fn get_frame_rate(&self, e: &Engine) -> (r: Result<crate::variant::Float32, Error>)
        requires
            e.wf(),
            self.valid(*e),
        ensures
            r matches Ok(f) && f == e.clip_info(self.id()).1.frame_rate,
    {
        match &e.payloads[self.h.raw_id()] {
            Payload::ClipObj { props, .. } => Ok(props.frame_rate),
            _ => {
                proof {
                    assert(false);
                }
                Err(Error { result: ENGINE_FAILURE_STATUS })
            },
        }
    }

    /// How many frames the clip holds.
    pub fn get_frame_count(&self, e: &Engine) -> (r: Result<u64, Error>)
        requires
            e.wf(),
            self.valid(*e),
        ensures
            r matches Ok(n) && n == e.clip_info(self.id()).1.frame_count,
    {
        match &e.payloads[self.h.raw_id()] {
            Payload::ClipObj { props, .. } => Ok(props.frame_count),
            _ => {
                proof {
                    assert(false);
                }
                Err(Error { result: ENGINE_FAILURE_STATUS })
            },
        }
    }

    /// The native capability query: asks the clip's object for an
    /// additional related interface by its 16-byte identifier. "Not
    /// supported" is the sentinel, mapped to `Ok(None)`, never a failure;
    /// a supported capability comes back as a raw object carrying one
    /// un-owned reference. The model engine knows one capability: audio.
    pub fn query_interface(&self, e: &mut Engine, iid: REFIID) -> (r: Result<Option<usize>, Error>)
        requires
            old(e).wf(),
            self.valid(*old(e)),
            old(e).n_objects() < usize::MAX,
        ensures
            final(e).wf(),
            misc_same(*old(e), *final(e)),
            !(iid == REFIID::audio_spec() && old(e).clip_info(self.id()).1.audio is Some) ==> (
            r matches Ok(a) && a is None && *final(e) == *old(e)),
            iid == REFIID::audio_spec() ==> (old(e).clip_info(self.id()).1.audio matches Some(
                props,
            ) ==> {
                &&& r matches Ok(oa) && oa matches Some(raw) && raw == old(e).n_objects()
                    && final(e).live(raw, ObjectKind::ClipAudio) && final(e).rc(raw) == 1
                    && final(e).audio_info(raw) == props
                &&& final(e).n_objects() == old(e).n_objects() + 1
                &&& final(e).counts@ == old(e).counts@.push(1)
            }),
    {
        if !(iid == REFIID::audio()) {
            return Ok(None);
        }
        let id = self.h.raw_id();
        let audio = match &e.payloads[id] {
            Payload::ClipObj { props, .. } => props.audio,
            _ => {
                proof {
                    assert(false);
                }
                None
            },
        };
        match audio {
            None => Ok(None),
            Some(props) => {
                let raw = e.install(Payload::AudioObj { props });
                Ok(Some(raw))
            },
        }
    }

    /// Queries the clip's audio capability. A clip without audio yields
    /// `Ok(None)` — capability absence is the sentinel status, not a
    /// failure. A clip with audio yields a fresh owning wrapper.
    pub fn get_audio(&self, e: &mut Engine) -> (r: Result<Option<ClipAudio>, Error>)
        requires
            old(e).wf(),
            self.valid(*old(e)),
            old(e).n_objects() < usize::MAX,
        ensures
            final(e).wf(),
            misc_same(*old(e), *final(e)),
            old(e).clip_info(self.id()).1.audio is None ==> (r matches Ok(a) && a is None
                && *final(e) == *old(e)),
            old(e).clip_info(self.id()).1.audio matches Some(props) ==> {
                &&& r matches Ok(oa) && oa matches Some(a) && a.valid(*final(e)) && a.id() == old(e).n_objects() && final(e).rc(a.id()) == 1 && final(e).audio_info(a.id()) == props
                &&& final(e).n_objects() == old(e).n_objects() + 1
                &&& final(e).counts@ == old(e).counts@.push(1)
            },
    {
        match self.query_interface(e, REFIID::audio()) {
            Ok(None) => Ok(None),
            Ok(Some(raw)) => Ok(
                Some(ClipAudio { h: HandleRef::adopt(e, raw, ObjectKind::ClipAudio) }),
            ),
            Err(err) => Err(err),
        }
    }

    /// Creates a job that will read one frame of this clip. The job starts
    /// in the created state; nothing runs until it is submitted.
    pub fn create_job_read_frame(&self, e: &mut Engine, frame: u64) -> (r: Result<Job, Error>)
        requires
            old(e).wf(),
            self.valid(*old(e)),
            old(e).n_objects() < usize::MAX,
        ensures
            final(e).wf(),
            misc_same(*old(e), *final(e)),
            final(e).n_objects() == old(e).n_objects() + 1,
            final(e).counts@ == old(e).counts@.push(1),
            r matches Ok(j) && j.valid(*final(e)) && j.id() == old(e).n_objects() && final(e).rc(
                j.id(),
            ) == 1 && final(e).job_info(j.id()) == (
                old(e).clip_info(self.id()).0,
                JobOp::ReadFrame { clip_id: self.id(), frame_index: frame },
                JobState::Created,
            ),
    {
        let id = self.h.raw_id();
        let codec_id = match &e.payloads[id] {
            Payload::ClipObj { codec_id, .. } => *codec_id,
            _ => {
                proof {
                    assert(false);
                }
                0
            },
        };
        let raw = e.install(
            Payload::JobObj {
                codec_id,
                op: JobOp::ReadFrame { clip_id: id, frame_index: frame },
                state: JobState::Created,
            },
        );
        Ok(Job { h: HandleRef::adopt(e, raw, ObjectKind::Job) })
    }

    /// Creates a job that will trim a frame range of this clip out to a new
    /// file. The file name is consumed by the engine's own file handling,
    /// which is outside the model.
    pub fn create_job_trim(
        &self,
        e: &mut Engine,
        _file_name: String,
        frame_index: u64,
        frame_count: u64,
    ) -> (r: Result<Job, Error>)
        requires
            old(e).wf(),
            self.valid(*old(e)),
            old(e).n_objects() < usize::MAX,
        ensures
            final(e).wf(),
            misc_same(*old(e), *final(e)),
            final(e).n_objects() == old(e).n_objects() + 1,
            final(e).counts@ == old(e).counts@.push(1),
            r matches Ok(j) && j.valid(*final(e)) && j.id() == old(e).n_objects() && final(e).rc(
                j.id(),
            ) == 1 && final(e).job_info(j.id()) == (
                old(e).clip_info(self.id()).0,
                JobOp::Trim { clip_id: self.id(), frame_index, frame_count },
                JobState::Created,
            ),
    {
        let id = self.h.raw_id();
        let codec_id = match &e.payloads[id] {
            Payload::ClipObj { codec_id, .. } => *codec_id,
            _ => {
                proof {
                    assert(false);
                }
                0
            },
        };
        let raw = e.install(
            Payload::JobObj {
                codec_id,
                op: JobOp::Trim { clip_id: id, frame_index, frame_count },
                state: JobState::Created,
            },
        );
        Ok(Job { h: HandleRef::adopt(e, raw, ObjectKind::Job) })
    }

    /// Releases the one reference this wrapper owns.
    pub fn release(self, e: &mut Engine)
        requires
            old(e).aligned(),
            self.valid(*old(e)),
        ensures
            counts_bumped(*old(e), *final(e), self.id() as int, -1),
            final(e).payloads@ == old(e).payloads@,
            misc_same(*old(e), *final(e)),
    {
        self.h.release(e);
    }

    /// The raw slot index of the owned object.
    pub fn raw_id(&self) -> (r: usize)
        ensures
            r == self.id(),
    {
        self.h.raw_id()
    }
}

impl ClipAudio {
    /// The slot of the owned object.
    pub closed spec fn id(self) -> usize {
        self.h.id()
    }

    /// The wrapper carries the interface kind this type stands for.
    pub closed spec fn kind_ok(self) -> bool {
        self.h.kind() == ObjectKind::ClipAudio
    }

    /// The wrapper is typed to its interface kind and its object is live.
    pub open spec fn valid(self, e: Engine) -> bool {
        &&& self.kind_ok()
        &&& e.live(self.id(), ObjectKind::ClipAudio)
    }

    /// How many audio channels the clip carries.
    pub fn get_channel_count(&self, e: &Engine) -> (r: Result<u32, Error>)
        requires
            e.wf(),
            self.valid(*e),
        ensures
            r matches Ok(n) && n == e.audio_info(self.id()).channel_count,
    {
        match &e.payloads[self.h.raw_id()] {
            Payload::AudioObj { props } => Ok(props.channel_count),
            _ => {
                proof {
                    assert(false);
                }
                Err(Error { result: ENGINE_FAILURE_STATUS })
            },
        }
    }

    /// The audio sample rate in hertz.
    pub fn get_sample_rate(&self, e: &Engine) -> (r: Result<u32, Error>)
        requires
            e.wf(),
            self.valid(*e),
        ensures
            r matches Ok(n) && n == e.audio_info(self.id()).sample_rate,
    {
        match &e.payloads[self.h.raw_id()] {
            Payload::AudioObj { props } => Ok(props.sample_rate),
            _ => {
                proof {
                    assert(false);
                }
                Err(Error { result: ENGINE_FAILURE_STATUS })
            },
        }
    }

    /// How many audio samples the clip holds.
    pub fn get_sample_count(&self, e: &Engine) -> (r: Result<u64, Error>)
        requires
            e.wf(),
            self.valid(*e),
        ensures
            r matches Ok(n) && n == e.audio_info(self.id()).sample_count,
    {
        match &e.payloads[self.h.raw_id()] {
            Payload::AudioObj { props } => Ok(props.sample_count),
            _ => {
                proof {
                    assert(false);
                }
                Err(Error { result: ENGINE_FAILURE_STATUS })
            },
        }
    }

    /// Releases the one reference this wrapper owns.
    pub fn release(self, e: &mut Engine)
        requires
            old(e).aligned(),
            self.valid(*old(e)),
        ensures
            counts_bumped(*old(e), *final(e), self.id() as int, -1),
            final(e).payloads@ == old(e).payloads@,
            misc_same(*old(e), *final(e)),
    {
        self.h.release(e);
    }

    /// The raw slot index of the owned object.
    pub fn raw_id(&self) -> (r: usize)
        ensures
            r == self.id(),
    {
        self.h.raw_id()
    }
}

impl Job {
    /// The slot of the owned object.
    pub closed spec fn id(self) -> usize {
        self.h.id()
    }

    /// The wrapper carries the interface kind this type stands for.
    pub closed spec fn kind_ok(self) -> bool {
        self.h.kind() == ObjectKind::Job
    }

    /// The wrapper is typed to its interface kind and its object is live.
    pub open spec fn valid(self, e: Engine) -> bool {
        &&& self.kind_ok()
        &&& e.live(self.id(), ObjectKind::Job)
    }

    /// Takes ownership of an un-owned outstanding reference on a raw job.
    pub(crate) fn adopt(e: &Engine, raw: usize) -> (j: Job)
        requires
            e.live(raw, ObjectKind::Job),
        ensures
            j.id() == raw,
            j.valid(*e),
    {
        Job { h: HandleRef::adopt(e, raw, ObjectKind::Job) }
    }

    /// Produces a second owning wrapper over a raw job obtained from
    /// elsewhere (a callback argument), incrementing first.
    pub fn new_ref(e: &mut Engine, raw: usize) -> (j: Job)
        requires
            old(e).aligned(),
            old(e).live(raw, ObjectKind::Job),
            old(e).rc(raw) < u64::MAX,
        ensures
            counts_bumped(*old(e), *final(e), raw as int, 1),
            final(e).payloads@ == old(e).payloads@,
            misc_same(*old(e), *final(e)),
            old(e).wf() ==> final(e).wf(),
            j.id() == raw,
            j.valid(*final(e)),
    {
        Job { h: HandleRef::new_ref(e, raw, ObjectKind::Job) }
    }

    /// Hands the job to the engine: fire-and-forget, completion arrives
    /// only through the callback bridge. Succeeds if and only if the job
    /// was created and not yet submitted; once submitted, a job runs to
    /// completion or failure and cannot be submitted again.
    pub fn submit(&self, e: &mut Engine) -> (r: Result<(), Error>)
        requires
            old(e).wf(),
            self.valid(*old(e)),
        ensures
            final(e).wf(),
            old(e).job_info(self.id()).2 != JobState::Created ==> (r matches Err(err) && err
                == (Error { result: ENGINE_FAILURE_STATUS }) && *final(e) == *old(e)),
            old(e).job_info(self.id()).2 == JobState::Created ==> {
                &&& r matches Ok(u) && u == ()
                &&& final(e).job_info(self.id()) == (
                    old(e).job_info(self.id()).0,
                    old(e).job_info(self.id()).1,
                    JobState::Submitted,
                )
                &&& final(e).counts@ == old(e).counts@
                &&& final(e).payloads@ == old(e).payloads@.update(
                    self.id() as int,
                    Payload::JobObj {
                        codec_id: old(e).job_info(self.id()).0,
                        op: old(e).job_info(self.id()).1,
                        state: JobState::Submitted,
                    },
                )
                &&& misc_same(*old(e), *final(e))
            },
    {
        let id = self.h.raw_id();
        let state = match &e.payloads[id] {
            Payload::JobObj { state, .. } => *state,
            _ => {
                proof {
                    assert(false);
                }
                JobState::Done
            },
        };
        if !matches!(state, JobState::Created) {
            return Err(Error { result: ENGINE_FAILURE_STATUS });
        }
        e.set_job_state(id, JobState::Submitted);
        Ok(())
    }

    /// Releases the one reference this wrapper owns.
    pub fn release(self, e: &mut Engine)
        requires
            old(e).aligned(),
            self.valid(*old(e)),
        ensures
            counts_bumped(*old(e), *final(e), self.id() as int, -1),
            final(e).payloads@ == old(e).payloads@,
            misc_same(*old(e), *final(e)),
    {
        self.h.release(e);
    }

    /// The raw slot index of the owned object.
    pub fn raw_id(&self) -> (r: usize)
        ensures
            r == self.id(),
    {
        self.h.raw_id()
    }
}

impl Frame {
    /// The slot of the owned object.
    pub closed spec fn id(self) -> usize {
        self.h.id()
    }

    /// The wrapper carries the interface kind this type stands for.
    pub closed spec fn kind_ok(self) -> bool {
        self.h.kind() == ObjectKind::Frame
    }

    /// The wrapper is typed to its interface kind and its object is live.
    pub open spec fn valid(self, e: Engine) -> bool {
        &&& self.kind_ok()
        &&& e.live(self.id(), ObjectKind::Frame)
    }

    /// Takes ownership of an un-owned outstanding reference on a raw frame.
    pub(crate) fn adopt(e: &Engine, raw: usize) -> (f: Frame)
        requires
            e.live(raw, ObjectKind::Frame),
        ensures
            f.id() == raw,
            f.valid(*e),
    {
        Frame { h: HandleRef::adopt(e, raw, ObjectKind::Frame) }
    }

    /// Produces a second owning wrapper over a raw frame obtained from
    /// elsewhere (a callback argument), incrementing first.
    pub fn new_ref(e: &mut Engine, raw: usize) -> (f: Frame)
        requires
            old(e).aligned(),
            old(e).live(raw, ObjectKind::Frame),
            old(e).rc(raw) < u64::MAX,
        ensures
            counts_bumped(*old(e), *final(e), raw as int, 1),
            final(e).payloads@ == old(e).payloads@,
            misc_same(*old(e), *final(e)),
            old(e).wf() ==> final(e).wf(),
            f.id() == raw,
            f.valid(*final(e)),
    {
        Frame { h: HandleRef::new_ref(e, raw, ObjectKind::Frame) }
    }

    /// Selects the pixel layout the decode of this frame will produce.
    pub fn set_resource_format(&self, e: &mut Engine, format: ResourceFormat) -> (r: Result<
        (),
        Error,
    >)
        requires
            old(e).wf(),
            self.valid(*old(e)),
        ensures
            final(e).wf(),
            final(e).frame_format(self.id()) == format.0,
            final(e).counts@ == old(e).counts@,
            misc_same(*old(e), *final(e)),
            final(e).payloads@ == old(e).payloads@.update(
                self.id() as int,
                Payload::FrameObj {
                    clip_id: old(e).frame_info(self.id()).0,
                    frame_index: old(e).frame_info(self.id()).1,
                    format: format.0,
                },
            ),
            r matches Ok(u) && u == (),
    {
        let id = self.h.raw_id();
        let (clip_id, frame_index) = match &e.payloads[id] {
            Payload::FrameObj { clip_id, frame_index, .. } => (*clip_id, *frame_index),
            _ => {
                proof {
                    assert(false);
                }
                (0, 0)
            },
        };
        let p_new = Payload::FrameObj { clip_id, frame_index, format: format.0 };
        e.payloads[id] = p_new;
        proof {
            lemma_wf_update_same_kind(*old(e), *e, id as int, p_new);
        }
        Ok(())
    }

    /// Creates a job that will decode and process this frame under the
    /// given attributes. The job starts in the created state.
    pub fn create_job_decode_and_process_frame(
        &self,
        e: &mut Engine,
        clip_processing_attributes: Option<&ClipProcessingAttributes>,
        frame_processing_attributes: Option<&FrameProcessingAttributes>,
    ) -> (r: Result<Job, Error>)
        requires
            old(e).wf(),
            self.valid(*old(e)),
            old(e).n_objects() < usize::MAX,
            clip_processing_attributes matches Some(a) ==> a.valid(*old(e)),
            frame_processing_attributes matches Some(a) ==> a.valid(*old(e)),
        ensures
            final(e).wf(),
            misc_same(*old(e), *final(e)),
            final(e).n_objects() == old(e).n_objects() + 1,
            final(e).counts@ == old(e).counts@.push(1),
            r matches Ok(j) && j.valid(*final(e)) && j.id() == old(e).n_objects() && final(e).rc(
                j.id(),
            ) == 1 && final(e).job_info(j.id()) == (
                old(e).clip_info(old(e).frame_info(self.id()).0).0,
                JobOp::DecodeProcess { frame_id: self.id() },
                JobState::Created,
            ),
    {
        let id = self.h.raw_id();
        let clip_id = match &e.payloads[id] {
            Payload::FrameObj { clip_id, .. } => *clip_id,
            _ => {
                proof {
                    assert(false);
                }
                0
            },
        };
        let codec_id = match &e.payloads[clip_id] {
            Payload::ClipObj { codec_id, .. } => *codec_id,
            _ => {
                proof {
                    assert(false);
                }
                0
            },
        };
        let raw = e.install(
            Payload::JobObj {
                codec_id,
                op: JobOp::DecodeProcess { frame_id: id },
                state: JobState::Created,
            },
        );
        Ok(Job { h: HandleRef::adopt(e, raw, ObjectKind::Job) })
    }

    /// Releases the one reference this wrapper owns.
    pub fn release(self, e: &mut Engine)
        requires
            old(e).aligned(),
            self.valid(*old(e)),
        ensures
            counts_bumped(*old(e), *final(e), self.id() as int, -1),
            final(e).payloads@ == old(e).payloads@,
            misc_same(*old(e), *final(e)),
    {
        self.h.release(e);
    }

    /// The raw slot index of the owned object.
    pub fn raw_id(&self) -> (r: usize)
        ensures
            r == self.id(),
    {
        self.h.raw_id()
    }
}

impl ProcessedImage {
    /// The slot of the owned object.
    pub closed spec fn id(self) -> usize {
        self.h.id()
    }

    /// The wrapper carries the interface kind this type stands for.
    pub closed spec fn kind_ok(self) -> bool {
        self.h.kind() == ObjectKind::ProcessedImage
    }

    /// The wrapper is typed to its interface kind and its object is live.
    pub open spec fn valid(self, e: Engine) -> bool {
        &&& self.kind_ok()
        &&& e.live(self.id(), ObjectKind::ProcessedImage)
    }

    /// Takes ownership of an un-owned outstanding reference on a raw image.
    pub(crate) fn adopt(e: &Engine, raw: usize) -> (p: ProcessedImage)
        requires
            e.live(raw, ObjectKind::ProcessedImage),
        ensures
            p.id() == raw,
            p.valid(*e),
    {
        ProcessedImage { h: HandleRef::adopt(e, raw, ObjectKind::ProcessedImage) }
    }

    /// Produces a second owning wrapper over a raw image obtained from
    /// elsewhere (a callback argument), incrementing first.
    pub fn new_ref(e: &mut Engine, raw: usize) -> (p: ProcessedImage)
        requires
            old(e).aligned(),
            old(e).live(raw, ObjectKind::ProcessedImage),
            old(e).rc(raw) < u64::MAX,
        ensures
            counts_bumped(*old(e), *final(e), raw as int, 1),
            final(e).payloads@ == old(e).payloads@,
            misc_same(*old(e), *final(e)),
            old(e).wf() ==> final(e).wf(),
            p.id() == raw,
            p.valid(*final(e)),
    {
        ProcessedImage { h: HandleRef::new_ref(e, raw, ObjectKind::ProcessedImage) }
    }

    /// The image width in pixels.
    pub fn get_width(&self, e: &Engine) -> (r: Result<u32, Error>)
        requires
            e.wf(),
            self.valid(*e),
        ensures
            r matches Ok(w) && w == e.image_info(self.id()).0,
    {
        match &e.payloads[self.h.raw_id()] {
            Payload::ImageObj { width, .. } => Ok(*width),
            _ => {
                proof {
                    assert(false);
                }
                Err(Error { result: ENGINE_FAILURE_STATUS })
            },
        }
    }

    /// The image height in pixels.
    pub fn get_height(&self, e: &Engine) -> (r: Result<u32, Error>)
        requires
            e.wf(),
            self.valid(*e),
        ensures
            r matches Ok(h) && h == e.image_info(self.id()).1,
    {
        match &e.payloads[self.h.raw_id()] {
            Payload::ImageObj { height, .. } => Ok(*height),
            _ => {
                proof {
                    assert(false);
                }
                Err(Error { result: ENGINE_FAILURE_STATUS })
            },
        }
    }

    /// How many bytes the decoded pixel buffer holds.
    pub fn get_resource_size_bytes(&self, e: &Engine) -> (r: Result<u32, Error>)
        requires
            e.wf(),
            self.valid(*e),
        ensures
            r matches Ok(n) && n == e.image_info(self.id()).2.len(),
    {
        match &e.payloads[self.h.raw_id()] {
            Payload::ImageObj { resource, .. } => Ok(resource.len() as u32),
            _ => {
                proof {
                    assert(false);
                }
                Err(Error { result: ENGINE_FAILURE_STATUS })
            },
        }
    }

    /// A copy of the decoded pixel buffer.
    pub fn get_resource(&self, e: &Engine) -> (r: Result<Vec<u8>, Error>)
        requires
            e.wf(),
            self.valid(*e),
        ensures
            r matches Ok(v) && v@ == e.image_info(self.id()).2,
    {
        match &e.payloads[self.h.raw_id()] {
            Payload::ImageObj { resource, .. } => {
                let n = resource.len();
                let mut out: Vec<u8> = Vec::new();
                let mut i: usize = 0;
                while i < n
                    invariant
                        i <= n,
                        n == resource@.len(),
                        out@ =~= resource@.take(i as int),
                    decreases n - i,
                {
                    out.push(resource[i]);
                    proof {
                        assert(out@ =~= resource@.take(i + 1 as int));
                    }
                    i = i + 1;
                }
                proof {
                    assert(out@ =~= resource@);
                }
                Ok(out)
            },
            _ => {
                proof {
                    assert(false);
                }
                Err(Error { result: ENGINE_FAILURE_STATUS })
            },
        }
    }

    /// Releases the one reference this wrapper owns.
    pub fn release(self, e: &mut Engine)
        requires
            old(e).aligned(),
            self.valid(*old(e)),
        ensures
            counts_bumped(*old(e), *final(e), self.id() as int, -1),
            final(e).payloads@ == old(e).payloads@,
            misc_same(*old(e), *final(e)),
    {
        self.h.release(e);
    }

    /// The raw slot index of the owned object.
    pub fn raw_id(&self) -> (r: usize)
        ensures
            r == self.id(),
    {
        self.h.raw_id()
    }
}

impl ClipProcessingAttributes {
    /// The slot of the owned object.
    pub closed spec fn id(self) -> usize {
        self.h.id()
    }

    /// The wrapper carries the interface kind this type stands for.
    pub closed spec fn kind_ok(self) -> bool {
        self.h.kind() == ObjectKind::ClipProcessingAttributes
    }

    /// The wrapper is typed to its interface kind and its object is live.
    pub open spec fn valid(self, e: Engine) -> bool {
        &&& self.kind_ok()
        &&& e.live(self.id(), ObjectKind::ClipProcessingAttributes)
    }

    /// Creates an empty clip-wide attribute set.
    pub fn create(e: &mut Engine) -> (r: ClipProcessingAttributes)
        requires
            old(e).wf(),
            old(e).n_objects() < usize::MAX,
        ensures
            final(e).wf(),
            misc_same(*old(e), *final(e)),
            final(e).n_objects() == old(e).n_objects() + 1,
            final(e).counts@ == old(e).counts@.push(1),
            r.valid(*final(e)),
            r.id() == old(e).n_objects(),
    {
        let raw = e.install(Payload::ClipAttrsObj);
        ClipProcessingAttributes {
            h: HandleRef::adopt(e, raw, ObjectKind::ClipProcessingAttributes),
        }
    }

    /// Releases the one reference this wrapper owns.
    pub fn release(self, e: &mut Engine)
        requires
            old(e).aligned(),
            self.valid(*old(e)),
        ensures
            counts_bumped(*old(e), *final(e), self.id() as int, -1),
            final(e).payloads@ == old(e).payloads@,
            misc_same(*old(e), *final(e)),
    {
        self.h.release(e);
    }
}

impl FrameProcessingAttributes {
    /// The slot of the owned object.
    pub closed spec fn id(self) -> usize {
        self.h.id()
    }

    /// The wrapper carries the interface kind this type stands for.
    pub closed spec fn kind_ok(self) -> bool {
        self.h.kind() == ObjectKind::FrameProcessingAttributes
    }

    /// The wrapper is typed to its interface kind and its object is live.
    pub open spec fn valid(self, e: Engine) -> bool {
        &&& self.kind_ok()
        &&& e.live(self.id(), ObjectKind::FrameProcessingAttributes)
    }

    /// Creates an empty per-frame attribute set.
    pub fn create(e: &mut Engine) -> (r: FrameProcessingAttributes)
        requires
            old(e).wf(),
            old(e).n_objects() < usize::MAX,
        ensures
            final(e).wf(),
            misc_same(*old(e), *final(e)),
            final(e).n_objects() == old(e).n_objects() + 1,
            final(e).counts@ == old(e).counts@.push(1),
            r.valid(*final(e)),
            r.id() == old(e).n_objects(),
    {
        let raw = e.install(Payload::FrameAttrsObj);
        FrameProcessingAttributes {
            h: HandleRef::adopt(e, raw, ObjectKind::FrameProcessingAttributes),
        }
    }

    /// Releases the one reference this wrapper owns.
    pub fn release(self, e: &mut Engine)
        requires
            old(e).aligned(),
            self.valid(*old(e)),
        ensures
            counts_bumped(*old(e), *final(e), self.id() as int, -1),
            final(e).payloads@ == old(e).payloads@,
            misc_same(*old(e), *final(e)),
    {
        self.h.release(e);
    }
}

} // verus!
