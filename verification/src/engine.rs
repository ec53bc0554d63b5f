//! The engine model: an explicit table of reference-counted opaque objects.
//!
//! The native engine is an external collaborator whose objects the core only
//! ever touches through three operations — increment-reference,
//! decrement-reference, and a capability query. This module models that
//! contract as an explicit object table: each object is a slot holding its
//! reference count and an opaque payload describing what the engine knows
//! about it. Raw handles are slot indices; index `0` is the null handle and
//! never names an object.
//!
//! Asynchronous completion is modeled as message passing: finishing a
//! submitted job appends a pending notification that the dispatch bridge
//! later turns into exactly one typed completion message.

use vstd::prelude::*;
use crate::variant::{Float32, Variant};

verus! {

/// The interface kind of an engine object.
#[derive(Clone, Copy, Debug, PartialEq, Eq, Structural)]
pub enum ObjectKind {
    Factory,
    Codec,
    Clip,
    ClipAudio,
    Job,
    Frame,
    ProcessedImage,
    MetadataIterator,
    ClipProcessingAttributes,
    FrameProcessingAttributes,
}

/// The audio capability of a clip.
#[derive(Clone, Copy, Debug, PartialEq, Eq, Structural)]
pub struct AudioProps {
    pub channel_count: u32,
    pub sample_rate: u32,
    pub sample_count: u64,
}

/// One entry of a clip's metadata sequence, together with the status each
/// native read of it would report: advancing to it, reading its key, and
/// reading its value.
pub struct MetaEntry {
    /// Status of the "move to next entry" call that reaches this entry;
    /// nonzero terminates the iteration (end-of-sequence or failure).
    pub advance_status: i32,
    /// Status of reading this entry's key.
    pub key_status: i32,
    /// The entry's key.
    pub key: String,
    /// Status of reading this entry's value.
    pub data_status: i32,
    /// The entry's self-describing value.
    pub value: Variant,
}

/// What the engine knows about a clip.
pub struct ClipProps {
    pub width: u32,
    pub height: u32,
    /// Frames per second, carried as a raw 32-bit float bit pattern.
    pub frame_rate: Float32,
    pub frame_count: u64,
    /// The audio capability, when the clip has one.
    pub audio: Option<AudioProps>,
    /// The clip's metadata sequence.
    pub metadata: Vec<MetaEntry>,
}

/// The operation a job was created for.
#[derive(Clone, Copy, Debug, PartialEq, Eq, Structural)]
pub enum JobOp {
    ReadFrame { clip_id: usize, frame_index: u64 },
    DecodeProcess { frame_id: usize },
    Trim { clip_id: usize, frame_index: u64, frame_count: u64 },
}

/// Where a job stands: created but not yet handed to the engine, submitted
/// and running, or finished.
#[derive(Clone, Copy, Debug, PartialEq, Eq, Structural)]
pub enum JobState {
    Created,
    Submitted,
    Done,
}

/// The engine-side description of one object slot.
pub enum Payload {
    /// No object; slot `0` is always free, so `0` can serve as null.
    Free,
    FactoryObj,
    CodecObj { registered: bool },
    ClipObj { codec_id: usize, props: ClipProps },
    AudioObj { props: AudioProps },
    JobObj { codec_id: usize, op: JobOp, state: JobState },
    FrameObj { clip_id: usize, frame_index: u64, format: u32 },
    ImageObj { width: u32, height: u32, resource: Vec<u8> },
    IterObj { clip_id: usize, pos: usize, done: bool },
    ClipAttrsObj,
    FrameAttrsObj,
}

/// The interface kind a payload describes, if any.
pub open spec fn payload_kind(p: Payload) -> Option<ObjectKind> {
    match p {
        Payload::Free => None,
        Payload::FactoryObj => Some(ObjectKind::Factory),
        Payload::CodecObj { .. } => Some(ObjectKind::Codec),
        Payload::ClipObj { .. } => Some(ObjectKind::Clip),
        Payload::AudioObj { .. } => Some(ObjectKind::ClipAudio),
        Payload::JobObj { .. } => Some(ObjectKind::Job),
        Payload::FrameObj { .. } => Some(ObjectKind::Frame),
        Payload::ImageObj { .. } => Some(ObjectKind::ProcessedImage),
        Payload::IterObj { .. } => Some(ObjectKind::MetadataIterator),
        Payload::ClipAttrsObj => Some(ObjectKind::ClipProcessingAttributes),
        Payload::FrameAttrsObj => Some(ObjectKind::FrameProcessingAttributes),
    }
}

/// A notification the engine has produced but the bridge has not yet
/// dispatched. For every handle-bearing field the event holds one reference
/// of its own, which dispatch later hands over to the typed completion.
pub enum PendingEvent {
    ReadComplete { codec_id: usize, job_id: usize, status: i32, frame_id: usize },
    DecodeComplete { codec_id: usize, job_id: usize, status: i32 },
    ProcessComplete { codec_id: usize, job_id: usize, status: i32, image_id: usize },
    TrimProgress { codec_id: usize, job_id: usize, progress: Float32 },
    TrimComplete { codec_id: usize, job_id: usize, status: i32 },
    SidecarWarning {
        codec_id: usize,
        clip_id: usize,
        filename: String,
        line_number: u32,
        info: String,
    },
    SidecarError {
        codec_id: usize,
        clip_id: usize,
        filename: String,
        line_number: u32,
        info: String,
    },
    PipelinePrepared { codec_id: usize, status: i32 },
}

/// The codec a pending notification belongs to.
pub open spec fn event_codec(ev: PendingEvent) -> usize {
    match ev {
        PendingEvent::ReadComplete { codec_id, .. } => codec_id,
        PendingEvent::DecodeComplete { codec_id, .. } => codec_id,
        PendingEvent::ProcessComplete { codec_id, .. } => codec_id,
        PendingEvent::TrimProgress { codec_id, .. } => codec_id,
        PendingEvent::TrimComplete { codec_id, .. } => codec_id,
        PendingEvent::SidecarWarning { codec_id, .. } => codec_id,
        PendingEvent::SidecarError { codec_id, .. } => codec_id,
        PendingEvent::PipelinePrepared { codec_id, .. } => codec_id,
    }
}

/// A coherent metadata sequence: every entry's variant payload is coherent.
pub open spec fn clip_props_wf(props: ClipProps) -> bool {
    forall|i: int|
        0 <= i < props.metadata@.len() ==> (#[trigger] props.metadata@[i].value).wf()
}

/// The simulated engine: the object table, the notifications not yet
/// dispatched, and the setup knobs of the simulation (the clips the next
/// open calls will find, and whether a factory can be produced at all).
pub struct Engine {
    /// Reference count of each object slot.
    pub counts: Vec<u64>,
    /// Engine-side description of each object slot.
    pub payloads: Vec<Payload>,
    /// Notifications produced but not yet dispatched, in production order.
    pub pending: Vec<PendingEvent>,
    /// The clips the next open calls will find, front first.
    pub prepared_clips: Vec<ClipProps>,
    /// Whether a factory instance can be produced.
    pub factory_available: bool,
}

impl Engine {
    /// Number of object slots, the reserved null slot included.
    pub open spec fn n_objects(self) -> int {
        self.payloads@.len() as int
    }

    /// Slot `id` holds an object of kind `k`.
    pub open spec fn is_obj(self, id: usize, k: ObjectKind) -> bool {
        &&& 0 < id < self.payloads@.len()
        &&& payload_kind(self.payloads@[id as int]) == Some(k)
    }

    /// The two table columns have the same length, so every object slot
    /// has a count.
    pub open spec fn aligned(self) -> bool {
        self.counts@.len() == self.payloads@.len()
    }

    /// The reference count of slot `id`.
    pub open spec fn rc(self, id: usize) -> u64 {
        self.counts@[id as int]
    }

    /// Slot `id` holds an object of kind `k` with at least one outstanding
    /// reference.
    pub open spec fn live(self, id: usize, k: ObjectKind) -> bool {
        &&& self.is_obj(id, k)
        &&& self.rc(id) >= 1
    }

    /// The object ids a payload mentions exist and have the expected kind.
    pub open spec fn payload_wf(self, p: Payload) -> bool {
        match p {
            Payload::ClipObj { codec_id, props } => {
                &&& self.is_obj(codec_id, ObjectKind::Codec)
                &&& clip_props_wf(props)
            },
            Payload::JobObj { codec_id, op, .. } => {
                &&& self.is_obj(codec_id, ObjectKind::Codec)
                &&& match op {
                    JobOp::ReadFrame { clip_id, .. } => self.is_obj(clip_id, ObjectKind::Clip),
                    JobOp::DecodeProcess { frame_id } => self.is_obj(frame_id, ObjectKind::Frame),
                    JobOp::Trim { clip_id, .. } => self.is_obj(clip_id, ObjectKind::Clip),
                }
            },
            Payload::FrameObj { clip_id, .. } => self.is_obj(clip_id, ObjectKind::Clip),
            Payload::IterObj { clip_id, .. } => self.is_obj(clip_id, ObjectKind::Clip),
            Payload::ImageObj { resource, .. } => resource@.len() <= u32::MAX,
            _ => true,
        }
    }

    /// A pending notification's objects exist, and the event holds a live
    /// reference on every handle it will hand over; a failed data-bearing
    /// event carries the null handle instead of an object.
    pub open spec fn event_wf(self, ev: PendingEvent) -> bool {
        match ev {
            PendingEvent::ReadComplete { codec_id, job_id, status, frame_id } => {
                &&& self.is_obj(codec_id, ObjectKind::Codec)
                &&& self.live(job_id, ObjectKind::Job)
                &&& status == 0 ==> self.live(frame_id, ObjectKind::Frame)
                &&& status != 0 ==> frame_id == 0
            },
            PendingEvent::DecodeComplete { codec_id, job_id, .. } => {
                &&& self.is_obj(codec_id, ObjectKind::Codec)
                &&& self.live(job_id, ObjectKind::Job)
            },
            PendingEvent::ProcessComplete { codec_id, job_id, status, image_id } => {
                &&& self.is_obj(codec_id, ObjectKind::Codec)
                &&& self.live(job_id, ObjectKind::Job)
                &&& status == 0 ==> self.live(image_id, ObjectKind::ProcessedImage)
                &&& status != 0 ==> image_id == 0
            },
            PendingEvent::TrimProgress { codec_id, job_id, .. } => {
                &&& self.is_obj(codec_id, ObjectKind::Codec)
                &&& self.live(job_id, ObjectKind::Job)
            },
            PendingEvent::TrimComplete { codec_id, job_id, .. } => {
                &&& self.is_obj(codec_id, ObjectKind::Codec)
                &&& self.live(job_id, ObjectKind::Job)
            },
            PendingEvent::SidecarWarning { codec_id, clip_id, .. } => {
                &&& self.is_obj(codec_id, ObjectKind::Codec)
                &&& self.live(clip_id, ObjectKind::Clip)
            },
            PendingEvent::SidecarError { codec_id, clip_id, .. } => {
                &&& self.is_obj(codec_id, ObjectKind::Codec)
                &&& self.live(clip_id, ObjectKind::Clip)
            },
            PendingEvent::PipelinePrepared { codec_id, .. } => self.is_obj(
                codec_id,
                ObjectKind::Codec,
            ),
        }
    }

    /// The engine's invariant: the two table columns line up, slot `0` is
    /// the reserved null slot, every payload's references are coherent,
    /// every pending notification is coherent, and every prepared clip is.
    pub open spec fn wf(self) -> bool {
        &&& self.counts@.len() == self.payloads@.len()
        &&& self.payloads@.len() >= 1
        &&& self.payloads@[0] is Free
        &&& forall|i: int|
            0 <= i < self.payloads@.len() ==> self.payload_wf(#[trigger] self.payloads@[i])
        &&& forall|i: int|
            0 <= i < self.pending@.len() ==> self.event_wf(#[trigger] self.pending@[i])
        &&& forall|i: int|
            0 <= i < self.prepared_clips@.len() ==> clip_props_wf(
                #[trigger] self.prepared_clips@[i],
            )
    }
}

/// The counts column changed by `delta` at `id` and nowhere else.
pub open spec fn counts_bumped(pre: Engine, post: Engine, id: int, delta: int) -> bool {
    &&& post.counts@.len() == pre.counts@.len()
    &&& post.counts@[id] == pre.counts@[id] + delta
    &&& forall|j: int|
        0 <= j < pre.counts@.len() && j != id ==> post.counts@[j] == #[trigger] pre.counts@[j]
}

/// Neither pending notifications, prepared clips, nor the factory knob
/// changed.
pub open spec fn misc_same(pre: Engine, post: Engine) -> bool {
    &&& post.pending@ == pre.pending@
    &&& post.prepared_clips@ == pre.prepared_clips@
    &&& post.factory_available == pre.factory_available
}

/// Coherence of a payload is kept when slots only gain objects and no
/// existing slot changes its kind.
pub proof fn lemma_payload_wf_mono(pre: Engine, post: Engine, p: Payload)
    requires
        pre.payload_wf(p),
        pre.payloads@.len() <= post.payloads@.len(),
        forall|i: int|
            0 < i < pre.payloads@.len() ==> payload_kind(#[trigger] post.payloads@[i])
                == payload_kind(pre.payloads@[i]),
    ensures
        post.payload_wf(p),
{
}

/// Coherence of a pending notification is kept when slots only gain
/// objects, no existing slot changes its kind, and no count drops.
pub proof fn lemma_event_wf_mono(pre: Engine, post: Engine, ev: PendingEvent)
    requires
        pre.event_wf(ev),
        pre.payloads@.len() <= post.payloads@.len(),
        post.counts@.len() == post.payloads@.len(),
        pre.counts@.len() == pre.payloads@.len(),
        forall|i: int|
            0 < i < pre.payloads@.len() ==> payload_kind(#[trigger] post.payloads@[i])
                == payload_kind(pre.payloads@[i]),
        forall|i: int|
            0 <= i < pre.counts@.len() ==> post.counts@[i] >= #[trigger] pre.counts@[i],
    ensures
        post.event_wf(ev),
{
}

impl Engine {
    /// A fresh engine: only the reserved null slot, nothing pending, no
    /// clips prepared, and a factory available.
    pub fn new() -> (e: Engine)
        ensures
            e.wf(),
            e.n_objects() == 1,
            e.counts@ =~= seq![0u64],
            e.pending@ =~= Seq::<PendingEvent>::empty(),
            e.prepared_clips@.len() == 0,
            e.factory_available,
    {
        let mut counts: Vec<u64> = Vec::new();
        counts.push(0);
        let mut payloads: Vec<Payload> = Vec::new();
        payloads.push(Payload::Free);
        Engine {
            counts,
            payloads,
            pending: Vec::new(),
            prepared_clips: Vec::new(),
            factory_available: true,
        }
    }

    /// Reads the reference count of a slot; the mock counter of the
    /// ownership discipline.
    pub fn ref_count(&self, id: usize) -> (n: u64)
        requires
            id < self.counts@.len(),
        ensures
            n == self.rc(id),
    {
        self.counts[id]
    }

    /// Whether the engine can produce a factory instance.
    pub fn set_factory_available(&mut self, available: bool)
        requires
            old(self).wf(),
        ensures
            final(self).wf(),
            final(self).factory_available == available,
            final(self).counts@ == old(self).counts@,
            final(self).payloads@ == old(self).payloads@,
            final(self).pending@ == old(self).pending@,
            final(self).prepared_clips@ == old(self).prepared_clips@,
    {
        self.factory_available = available;
    }

    /// Queues a clip description for the next open call to find.
    pub fn prepare_clip(&mut self, props: ClipProps)
        requires
            old(self).wf(),
            clip_props_wf(props),
        ensures
            final(self).wf(),
            final(self).prepared_clips@ == old(self).prepared_clips@.push(props),
            final(self).counts@ == old(self).counts@,
            final(self).payloads@ == old(self).payloads@,
            final(self).pending@ == old(self).pending@,
            final(self).factory_available == old(self).factory_available,
    {
        self.prepared_clips.push(props);
    }

    /// The native increment-reference operation.
    pub(crate) fn add_ref(&mut self, id: usize)
        requires
            0 < id < old(self).counts@.len(),
            old(self).rc(id) < u64::MAX,
        ensures
            counts_bumped(*old(self), *final(self), id as int, 1),
            final(self).payloads@ == old(self).payloads@,
            misc_same(*old(self), *final(self)),
            old(self).wf() ==> final(self).wf(),
    {
        let n = self.counts[id];
        self.counts[id] = n + 1;
        proof {
            let pre = *old(self);
            let post = *self;
            if pre.wf() {
                assert forall|i: int| 0 <= i < post.payloads@.len() implies post.payload_wf(
                    #[trigger] post.payloads@[i],
                ) by {
                    lemma_payload_wf_mono(pre, post, pre.payloads@[i]);
                }
                assert forall|i: int| 0 <= i < post.pending@.len() implies post.event_wf(
                    #[trigger] post.pending@[i],
                ) by {
                    lemma_event_wf_mono(pre, post, pre.pending@[i]);
                }
            }
        }
    }

    /// The native decrement-reference operation. Dropping the count to zero
    /// may tear the object down inside the engine; nothing of that is
    /// observable through the table.
    pub(crate) fn release_ref(&mut self, id: usize)
        requires
            0 < id < old(self).counts@.len(),
            old(self).rc(id) >= 1,
        ensures
            counts_bumped(*old(self), *final(self), id as int, -1),
            final(self).payloads@ == old(self).payloads@,
            misc_same(*old(self), *final(self)),
    {
        let n = self.counts[id];
        self.counts[id] = n - 1;
    }

    /// Installs a new object with one outstanding reference and returns its
    /// slot.
    pub(crate) fn install(&mut self, p: Payload) -> (id: usize)
        requires
            old(self).wf(),
            old(self).payload_wf(p),
            !(p is Free),
            old(self).payloads@.len() < usize::MAX,
        ensures
            final(self).wf(),
            id == old(self).n_objects(),
            final(self).n_objects() == old(self).n_objects() + 1,
            final(self).counts@ == old(self).counts@.push(1),
            final(self).payloads@ == old(self).payloads@.push(p),
            final(self).rc(id) == 1,
            payload_kind(p) matches Some(k) && final(self).is_obj(id, k),
            misc_same(*old(self), *final(self)),
    {
        let id = self.payloads.len();
        self.counts.push(1);
        self.payloads.push(p);
        proof {
            let pre = *old(self);
            let post = *self;
            assert forall|i: int| 0 <= i < post.payloads@.len() implies post.payload_wf(
                #[trigger] post.payloads@[i],
            ) by {
                if i < pre.payloads@.len() {
                    lemma_payload_wf_mono(pre, post, pre.payloads@[i]);
                } else {
                    lemma_payload_wf_mono(pre, post, p);
                }
            }
            assert forall|i: int| 0 <= i < post.pending@.len() implies post.event_wf(
                #[trigger] post.pending@[i],
            ) by {
                lemma_event_wf_mono(pre, post, pre.pending@[i]);
            }
        }
        id
    }

    /// The native "create a factory instance" entry point: a raw object
    /// carrying one un-owned reference, or the null handle when no factory
    /// can be produced.
    pub(crate) fn create_factory(&mut self) -> (raw: usize)
        requires
            old(self).wf(),
            old(self).payloads@.len() < usize::MAX,
        ensures
            final(self).wf(),
            misc_same(*old(self), *final(self)),
            !old(self).factory_available ==> raw == 0 && *final(self) == *old(self),
            old(self).factory_available ==> {
                &&& raw == old(self).n_objects()
                &&& final(self).live(raw, ObjectKind::Factory)
                &&& final(self).rc(raw) == 1
                &&& final(self).counts@ == old(self).counts@.push(1)
                &&& final(self).payloads@ == old(self).payloads@.push(Payload::FactoryObj)
            },
    {
        if self.factory_available {
            self.install(Payload::FactoryObj)
        } else {
            0
        }
    }
}


/// Replacing one slot's payload by another of the same kind, with coherent
/// references, keeps the engine coherent.
pub proof fn lemma_wf_update_same_kind(pre: Engine, post: Engine, id: int, p_new: Payload)
    requires
        pre.wf(),
        0 < id < pre.payloads@.len(),
        post.payloads@ == pre.payloads@.update(id, p_new),
        post.counts@ == pre.counts@,
        post.pending@ == pre.pending@,
        post.prepared_clips@ == pre.prepared_clips@,
        payload_kind(p_new) == payload_kind(pre.payloads@[id]),
        pre.payload_wf(p_new),
    ensures
        post.wf(),
{
    assert forall|i: int| 0 <= i < post.payloads@.len() implies post.payload_wf(
        #[trigger] post.payloads@[i],
    ) by {
        if i == id {
            lemma_payload_wf_mono(pre, post, p_new);
        } else {
            lemma_payload_wf_mono(pre, post, pre.payloads@[i]);
        }
    }
    assert forall|i: int| 0 <= i < post.pending@.len() implies post.event_wf(
        #[trigger] post.pending@[i],
    ) by {
        lemma_event_wf_mono(pre, post, pre.pending@[i]);
    }
}

impl Engine {
    /// The codec, operation and state of a job slot.
    pub open spec fn job_info(self, id: usize) -> (usize, JobOp, JobState)
        recommends
            self.is_obj(id, ObjectKind::Job),
    {
        match self.payloads@[id as int] {
            Payload::JobObj { codec_id, op, state } => (codec_id, op, state),
            _ => arbitrary(),
        }
    }

    /// The engine-side description of a clip slot.
    pub open spec fn clip_info(self, id: usize) -> (usize, ClipProps)
        recommends
            self.is_obj(id, ObjectKind::Clip),
    {
        match self.payloads@[id as int] {
            Payload::ClipObj { codec_id, props } => (codec_id, props),
            _ => arbitrary(),
        }
    }

    /// The audio capability description of an audio slot.
    pub open spec fn audio_info(self, id: usize) -> AudioProps
        recommends
            self.is_obj(id, ObjectKind::ClipAudio),
    {
        match self.payloads@[id as int] {
            Payload::AudioObj { props } => props,
            _ => arbitrary(),
        }
    }

    /// The clip, frame index and pixel format of a frame slot.
    pub open spec fn frame_info(self, id: usize) -> (usize, u64, u32)
        recommends
            self.is_obj(id, ObjectKind::Frame),
    {
        match self.payloads@[id as int] {
            Payload::FrameObj { clip_id, frame_index, format } => (clip_id, frame_index, format),
            _ => arbitrary(),
        }
    }

    /// The pixel format selected on a frame slot.
    pub open spec fn frame_format(self, id: usize) -> u32
        recommends
            self.is_obj(id, ObjectKind::Frame),
    {
        self.frame_info(id).2
    }

    /// The dimensions and pixel bytes of a processed-image slot.
    pub open spec fn image_info(self, id: usize) -> (u32, u32, Seq<u8>)
        recommends
            self.is_obj(id, ObjectKind::ProcessedImage),
    {
        match self.payloads@[id as int] {
            Payload::ImageObj { width, height, resource } => (width, height, resource@),
            _ => arbitrary(),
        }
    }

    /// The clip, position and exhaustion mark of a metadata-iterator slot.
    pub open spec fn iter_info(self, id: usize) -> (usize, usize, bool)
        recommends
            self.is_obj(id, ObjectKind::MetadataIterator),
    {
        match self.payloads@[id as int] {
            Payload::IterObj { clip_id, pos, done } => (clip_id, pos, done),
            _ => arbitrary(),
        }
    }

    /// Whether a codec slot has a callback registration installed.
    pub open spec fn codec_registered(self, id: usize) -> bool
        recommends
            self.is_obj(id, ObjectKind::Codec),
    {
        match self.payloads@[id as int] {
            Payload::CodecObj { registered } => registered,
            _ => arbitrary(),
        }
    }

    /// Moves a job slot to a new state, leaving its codec and operation as
    /// they are.
    pub(crate) fn set_job_state(&mut self, job_id: usize, st: JobState)
        requires
            old(self).wf(),
            old(self).is_obj(job_id, ObjectKind::Job),
        ensures
            final(self).wf(),
            final(self).payloads@ == old(self).payloads@.update(
                job_id as int,
                Payload::JobObj {
                    codec_id: old(self).job_info(job_id).0,
                    op: old(self).job_info(job_id).1,
                    state: st,
                },
            ),
            final(self).counts@ == old(self).counts@,
            misc_same(*old(self), *final(self)),
    {
        let (codec_id, op) = match &self.payloads[job_id] {
            Payload::JobObj { codec_id, op, .. } => (*codec_id, *op),
            _ => {
                proof {
                    assert(false);
                }
                (0, JobOp::DecodeProcess { frame_id: 0 })
            },
        };
        let p_new = Payload::JobObj { codec_id, op, state: st };
        self.payloads[job_id] = p_new;
        proof {
            lemma_wf_update_same_kind(*old(self), *self, job_id as int, p_new);
        }
    }

    /// Sets or clears a codec slot's callback registration mark.
    pub(crate) fn set_codec_registered(&mut self, codec_id: usize, on: bool)
        requires
            old(self).wf(),
            old(self).is_obj(codec_id, ObjectKind::Codec),
        ensures
            final(self).wf(),
            final(self).payloads@ == old(self).payloads@.update(
                codec_id as int,
                Payload::CodecObj { registered: on },
            ),
            final(self).counts@ == old(self).counts@,
            misc_same(*old(self), *final(self)),
    {
        let p_new = Payload::CodecObj { registered: on };
        self.payloads[codec_id] = p_new;
        proof {
            lemma_wf_update_same_kind(*old(self), *self, codec_id as int, p_new);
        }
    }

    /// Clears a codec slot's callback registration mark, whatever state
    /// the table is in: on anything that is not a codec slot this does
    /// nothing, so scoped release can run on every exit path.
    pub fn clear_callback(&mut self, codec_id: usize)
        ensures
            old(self).is_obj(codec_id, ObjectKind::Codec) ==> {
                &&& final(self).payloads@ == old(self).payloads@.update(
                    codec_id as int,
                    Payload::CodecObj { registered: false },
                )
                &&& final(self).counts@ == old(self).counts@
                &&& misc_same(*old(self), *final(self))
                &&& old(self).wf() ==> final(self).wf()
            },
            !old(self).is_obj(codec_id, ObjectKind::Codec) ==> *final(self) == *old(self),
    {
        if codec_id > 0 && codec_id < self.payloads.len() {
            let is_codec = matches!(&self.payloads[codec_id], Payload::CodecObj { .. });
            if is_codec {
                self.payloads[codec_id] = Payload::CodecObj { registered: false };
                proof {
                    if old(self).wf() {
                        lemma_wf_update_same_kind(
                            *old(self),
                            *self,
                            codec_id as int,
                            Payload::CodecObj { registered: false },
                        );
                    }
                }
            }
        }
    }

    /// Appends a coherent notification to the pending queue.
    pub(crate) fn push_event(&mut self, ev: PendingEvent)
        requires
            old(self).wf(),
            old(self).event_wf(ev),
        ensures
            final(self).wf(),
            final(self).pending@ == old(self).pending@.push(ev),
            final(self).counts@ == old(self).counts@,
            final(self).payloads@ == old(self).payloads@,
            final(self).prepared_clips@ == old(self).prepared_clips@,
            final(self).factory_available == old(self).factory_available,
    {
        self.pending.push(ev);
        proof {
            let pre = *old(self);
            let post = *self;
            assert forall|i: int| 0 <= i < post.payloads@.len() implies post.payload_wf(
                #[trigger] post.payloads@[i],
            ) by {
                lemma_payload_wf_mono(pre, post, pre.payloads@[i]);
            }
            assert forall|i: int| 0 <= i < post.pending@.len() implies post.event_wf(
                #[trigger] post.pending@[i],
            ) by {
                if i < pre.pending@.len() {
                    lemma_event_wf_mono(pre, post, pre.pending@[i]);
                } else {
                    lemma_event_wf_mono(pre, post, ev);
                }
            }
        }
    }

    /// The engine finishes a submitted read-frame job: on success a fresh
    /// frame object is produced (one reference, held by the notification),
    /// the job moves to done, the notification takes its own reference on
    /// the job, and a read-complete notification is queued.
    pub fn complete_read_job(&mut self, job_id: usize, status: i32)
        requires
            old(self).wf(),
            old(self).live(job_id, ObjectKind::Job),
            old(self).job_info(job_id).2 == JobState::Submitted,
            old(self).job_info(job_id).1 matches JobOp::ReadFrame { .. },
            old(self).rc(job_id) < u64::MAX,
            old(self).n_objects() < usize::MAX,
        ensures
            final(self).wf(),
            final(self).job_info(job_id).0 == old(self).job_info(job_id).0,
            final(self).job_info(job_id).1 == old(self).job_info(job_id).1,
            final(self).job_info(job_id).2 == JobState::Done,
            final(self).rc(job_id) == old(self).rc(job_id) + 1,
            final(self).prepared_clips@ == old(self).prepared_clips@,
            final(self).factory_available == old(self).factory_available,
            status != 0 ==> {
                &&& final(self).n_objects() == old(self).n_objects()
                &&& counts_bumped(*old(self), *final(self), job_id as int, 1)
                &&& final(self).payloads@ == old(self).payloads@.update(
                    job_id as int,
                    Payload::JobObj {
                        codec_id: old(self).job_info(job_id).0,
                        op: old(self).job_info(job_id).1,
                        state: JobState::Done,
                    },
                )
                &&& final(self).pending@ == old(self).pending@.push(
                    PendingEvent::ReadComplete {
                        codec_id: old(self).job_info(job_id).0,
                        job_id,
                        status,
                        frame_id: 0,
                    },
                )
            },
            status == 0 ==> {
                let frame_id = old(self).n_objects() as usize;
                &&& final(self).n_objects() == old(self).n_objects() + 1
                &&& final(self).live(frame_id, ObjectKind::Frame)
                &&& final(self).rc(frame_id) == 1
                &&& forall|j: int|
                    0 <= j < old(self).counts@.len() && j != job_id as int ==> final(self).counts@[j]
                        == #[trigger] old(self).counts@[j]
                &&& (old(self).job_info(job_id).1 matches JobOp::ReadFrame { clip_id, frame_index }
                    ==> final(self).payloads@ == old(self).payloads@.update(
                    job_id as int,
                    Payload::JobObj {
                        codec_id: old(self).job_info(job_id).0,
                        op: old(self).job_info(job_id).1,
                        state: JobState::Done,
                    },
                ).push(Payload::FrameObj { clip_id, frame_index, format: 0 }))
                &&& final(self).pending@ == old(self).pending@.push(
                    PendingEvent::ReadComplete {
                        codec_id: old(self).job_info(job_id).0,
                        job_id,
                        status,
                        frame_id,
                    },
                )
            },
    {
        let (codec_id, op) = match &self.payloads[job_id] {
            Payload::JobObj { codec_id, op, .. } => (*codec_id, *op),
            _ => {
                proof {
                    assert(false);
                }
                (0, JobOp::DecodeProcess { frame_id: 0 })
            },
        };
        let (clip_id, frame_index) = match op {
            JobOp::ReadFrame { clip_id, frame_index } => (clip_id, frame_index),
            _ => {
                proof {
                    assert(false);
                }
                (0, 0)
            },
        };
        self.set_job_state(job_id, JobState::Done);
        self.add_ref(job_id);
        let frame_id = if status == 0 {
            self.install(Payload::FrameObj { clip_id, frame_index, format: 0 })
        } else {
            0
        };
        self.push_event(PendingEvent::ReadComplete { codec_id, job_id, status, frame_id });
    }

    /// The engine reports the decode stage of a submitted
    /// decode-and-process job: the notification takes its own reference on
    /// the job, which stays submitted (the process stage is still to come).
    pub fn complete_decode_job(&mut self, job_id: usize, status: i32)
        requires
            old(self).wf(),
            old(self).live(job_id, ObjectKind::Job),
            old(self).job_info(job_id).2 == JobState::Submitted,
            old(self).rc(job_id) < u64::MAX,
        ensures
            final(self).wf(),
            final(self).payloads@ == old(self).payloads@,
            counts_bumped(*old(self), *final(self), job_id as int, 1),
            final(self).pending@ == old(self).pending@.push(
                PendingEvent::DecodeComplete {
                    codec_id: old(self).job_info(job_id).0,
                    job_id,
                    status,
                },
            ),
            final(self).prepared_clips@ == old(self).prepared_clips@,
            final(self).factory_available == old(self).factory_available,
    {
        let (codec_id, _op) = match &self.payloads[job_id] {
            Payload::JobObj { codec_id, op, .. } => (*codec_id, *op),
            _ => {
                proof {
                    assert(false);
                }
                (0, JobOp::DecodeProcess { frame_id: 0 })
            },
        };
        self.add_ref(job_id);
        self.push_event(PendingEvent::DecodeComplete { codec_id, job_id, status });
    }

    /// The engine finishes the process stage of a submitted
    /// decode-and-process job: on success a fresh processed-image object is
    /// produced (one reference, held by the notification), the job moves to
    /// done, and a process-complete notification is queued.
    pub fn complete_process_job(
        &mut self,
        job_id: usize,
        status: i32,
        width: u32,
        height: u32,
        resource: Vec<u8>,
    )
        requires
            old(self).wf(),
            old(self).live(job_id, ObjectKind::Job),
            old(self).job_info(job_id).2 == JobState::Submitted,
            old(self).rc(job_id) < u64::MAX,
            old(self).n_objects() < usize::MAX,
            resource@.len() <= u32::MAX,
        ensures
            final(self).wf(),
            final(self).job_info(job_id).2 == JobState::Done,
            final(self).rc(job_id) == old(self).rc(job_id) + 1,
            final(self).prepared_clips@ == old(self).prepared_clips@,
            final(self).factory_available == old(self).factory_available,
            status != 0 ==> {
                &&& final(self).n_objects() == old(self).n_objects()
                &&& final(self).payloads@ == old(self).payloads@.update(
                    job_id as int,
                    Payload::JobObj {
                        codec_id: old(self).job_info(job_id).0,
                        op: old(self).job_info(job_id).1,
                        state: JobState::Done,
                    },
                )
                &&& final(self).pending@ == old(self).pending@.push(
                    PendingEvent::ProcessComplete {
                        codec_id: old(self).job_info(job_id).0,
                        job_id,
                        status,
                        image_id: 0,
                    },
                )
            },
            status == 0 ==> {
                let image_id = old(self).n_objects() as usize;
                &&& final(self).n_objects() == old(self).n_objects() + 1
                &&& final(self).live(image_id, ObjectKind::ProcessedImage)
                &&& final(self).rc(image_id) == 1
                &&& final(self).payloads@ == old(self).payloads@.update(
                    job_id as int,
                    Payload::JobObj {
                        codec_id: old(self).job_info(job_id).0,
                        op: old(self).job_info(job_id).1,
                        state: JobState::Done,
                    },
                ).push(Payload::ImageObj { width, height, resource })
                &&& final(self).pending@ == old(self).pending@.push(
                    PendingEvent::ProcessComplete {
                        codec_id: old(self).job_info(job_id).0,
                        job_id,
                        status,
                        image_id,
                    },
                )
            },
    {
        let (codec_id, _op) = match &self.payloads[job_id] {
            Payload::JobObj { codec_id, op, .. } => (*codec_id, *op),
            _ => {
                proof {
                    assert(false);
                }
                (0, JobOp::DecodeProcess { frame_id: 0 })
            },
        };
        self.set_job_state(job_id, JobState::Done);
        self.add_ref(job_id);
        let image_id = if status == 0 {
            self.install(Payload::ImageObj { width, height, resource })
        } else {
            0
        };
        self.push_event(PendingEvent::ProcessComplete { codec_id, job_id, status, image_id });
    }

    /// The engine reports progress of a submitted trim job; the
    /// notification takes its own reference on the job, which stays
    /// submitted.
    pub fn notify_trim_progress(&mut self, job_id: usize, progress: Float32)
        requires
            old(self).wf(),
            old(self).live(job_id, ObjectKind::Job),
            old(self).job_info(job_id).2 == JobState::Submitted,
            old(self).rc(job_id) < u64::MAX,
        ensures
            final(self).wf(),
            final(self).payloads@ == old(self).payloads@,
            counts_bumped(*old(self), *final(self), job_id as int, 1),
            final(self).pending@ == old(self).pending@.push(
                PendingEvent::TrimProgress {
                    codec_id: old(self).job_info(job_id).0,
                    job_id,
                    progress,
                },
            ),
            final(self).prepared_clips@ == old(self).prepared_clips@,
            final(self).factory_available == old(self).factory_available,
    {
        let (codec_id, _op) = match &self.payloads[job_id] {
            Payload::JobObj { codec_id, op, .. } => (*codec_id, *op),
            _ => {
                proof {
                    assert(false);
                }
                (0, JobOp::DecodeProcess { frame_id: 0 })
            },
        };
        self.add_ref(job_id);
        self.push_event(PendingEvent::TrimProgress { codec_id, job_id, progress });
    }

    /// The engine finishes a submitted trim job: the job moves to done, the
    /// notification takes its own reference on it, and a trim-complete
    /// notification is queued.
    pub fn complete_trim_job(&mut self, job_id: usize, status: i32)
        requires
            old(self).wf(),
            old(self).live(job_id, ObjectKind::Job),
            old(self).job_info(job_id).2 == JobState::Submitted,
            old(self).rc(job_id) < u64::MAX,
        ensures
            final(self).wf(),
            final(self).job_info(job_id).2 == JobState::Done,
            final(self).n_objects() == old(self).n_objects(),
            counts_bumped(*old(self), *final(self), job_id as int, 1),
            final(self).payloads@ == old(self).payloads@.update(
                job_id as int,
                Payload::JobObj {
                    codec_id: old(self).job_info(job_id).0,
                    op: old(self).job_info(job_id).1,
                    state: JobState::Done,
                },
            ),
            final(self).pending@ == old(self).pending@.push(
                PendingEvent::TrimComplete {
                    codec_id: old(self).job_info(job_id).0,
                    job_id,
                    status,
                },
            ),
            final(self).prepared_clips@ == old(self).prepared_clips@,
            final(self).factory_available == old(self).factory_available,
    {
        let (codec_id, _op) = match &self.payloads[job_id] {
            Payload::JobObj { codec_id, op, .. } => (*codec_id, *op),
            _ => {
                proof {
                    assert(false);
                }
                (0, JobOp::DecodeProcess { frame_id: 0 })
            },
        };
        self.set_job_state(job_id, JobState::Done);
        self.add_ref(job_id);
        self.push_event(PendingEvent::TrimComplete { codec_id, job_id, status });
    }

    /// The engine reports a sidecar-metadata parse warning on a clip; the
    /// notification takes its own reference on the clip.
    pub fn notify_sidecar_warning(
        &mut self,
        clip_id: usize,
        filename: String,
        line_number: u32,
        info: String,
    )
        requires
            old(self).wf(),
            old(self).live(clip_id, ObjectKind::Clip),
            old(self).rc(clip_id) < u64::MAX,
        ensures
            final(self).wf(),
            final(self).payloads@ == old(self).payloads@,
            counts_bumped(*old(self), *final(self), clip_id as int, 1),
            final(self).pending@ == old(self).pending@.push(
                PendingEvent::SidecarWarning {
                    codec_id: old(self).clip_info(clip_id).0,
                    clip_id,
                    filename,
                    line_number,
                    info,
                },
            ),
            final(self).prepared_clips@ == old(self).prepared_clips@,
            final(self).factory_available == old(self).factory_available,
    {
        let codec_id = match &self.payloads[clip_id] {
            Payload::ClipObj { codec_id, .. } => *codec_id,
            _ => {
                proof {
                    assert(false);
                }
                0
            },
        };
        self.add_ref(clip_id);
        self.push_event(
            PendingEvent::SidecarWarning { codec_id, clip_id, filename, line_number, info },
        );
    }

    /// The engine reports a sidecar-metadata parse error on a clip; the
    /// notification takes its own reference on the clip.
    pub fn notify_sidecar_error(
        &mut self,
        clip_id: usize,
        filename: String,
        line_number: u32,
        info: String,
    )
        requires
            old(self).wf(),
            old(self).live(clip_id, ObjectKind::Clip),
            old(self).rc(clip_id) < u64::MAX,
        ensures
            final(self).wf(),
            final(self).payloads@ == old(self).payloads@,
            counts_bumped(*old(self), *final(self), clip_id as int, 1),
            final(self).pending@ == old(self).pending@.push(
                PendingEvent::SidecarError {
                    codec_id: old(self).clip_info(clip_id).0,
                    clip_id,
                    filename,
                    line_number,
                    info,
                },
            ),
            final(self).prepared_clips@ == old(self).prepared_clips@,
            final(self).factory_available == old(self).factory_available,
    {
        let codec_id = match &self.payloads[clip_id] {
            Payload::ClipObj { codec_id, .. } => *codec_id,
            _ => {
                proof {
                    assert(false);
                }
                0
            },
        };
        self.add_ref(clip_id);
        self.push_event(
            PendingEvent::SidecarError { codec_id, clip_id, filename, line_number, info },
        );
    }

    /// The engine reports that preparing a processing pipeline on a codec
    /// finished; the notification carries no handle.
    pub fn complete_prepare_pipeline(&mut self, codec_id: usize, status: i32)
        requires
            old(self).wf(),
            old(self).is_obj(codec_id, ObjectKind::Codec),
        ensures
            final(self).wf(),
            final(self).payloads@ == old(self).payloads@,
            final(self).counts@ == old(self).counts@,
            final(self).pending@ == old(self).pending@.push(
                PendingEvent::PipelinePrepared { codec_id, status },
            ),
            final(self).prepared_clips@ == old(self).prepared_clips@,
            final(self).factory_available == old(self).factory_available,
    {
        self.push_event(PendingEvent::PipelinePrepared { codec_id, status });
    }
}


} // verus!
