//! The asynchronous dispatch bridge.
//!
//! Engine worker threads report completions as raw notifications: an opaque
//! user-data token, the raw handles of the event, and a status code. The
//! bridge turns each notification into exactly one typed completion
//! message: it decodes the status through the single status rule, takes
//! ownership of the references the notification holds (never constructing a
//! payload handle from a failed status), and invokes the matching method of
//! the caller's [`Callback`] object. The bridge does not serialize calls;
//! keeping the callback object safe under concurrent invocation is its
//! author's concern, which is why the bridge only ever takes it as an
//! exclusive borrow per dispatch.

use vstd::prelude::*;
use crate::engine::{event_codec, Engine, ObjectKind, PendingEvent};
use crate::facade::{Clip, Codec, Frame, Job, ProcessedImage};
use crate::status::Error;
use crate::variant::Float32;

verus! {

/// The fixed set of completion and progress notifications a caller can
/// receive. Implement the methods the application cares about; the rest
/// default to doing nothing, as the engine may emit any of them.
pub trait Callback {
    /// A read-frame job finished; on success the frame is handed over as
    /// an owned wrapper.
    fn read_complete(&mut self, job: Job, result: Result<Frame, Error>) {
    }

    /// The decode stage of a decode-and-process job finished.
    fn decode_complete(&mut self, job: Job, result: Result<(), Error>) {
    }

    /// The process stage finished; on success the processed image is
    /// handed over as an owned wrapper.
    fn process_complete(&mut self, job: Job, result: Result<ProcessedImage, Error>) {
    }

    /// A trim job reported progress, as the raw bits of a 32-bit float
    /// fraction.
    fn trim_progress(&mut self, job: Job, progress: Float32) {
    }

    /// A trim job finished.
    fn trim_complete(&mut self, job: Job, result: Result<(), Error>) {
    }

    /// The engine warned about a sidecar metadata file while parsing it.
    fn sidecar_metadata_parse_warning(
        &mut self,
        clip: Clip,
        filename: &str,
        line_number: u32,
        info: &str,
    ) {
    }

    /// The engine failed to parse a sidecar metadata file.
    fn sidecar_metadata_parse_error(
        &mut self,
        clip: Clip,
        filename: &str,
        line_number: u32,
        info: &str,
    ) {
    }

    /// Preparing a processing pipeline finished.
    fn prepare_pipeline_complete(&mut self, result: Result<(), Error>) {
    }
}

/// One typed completion message, carrying owned handles. A failed
/// data-bearing event carries only the failure: the payload handle is
/// never constructed.
pub enum Completion {
    ReadComplete(Job, Result<Frame, Error>),
    DecodeComplete(Job, Result<(), Error>),
    ProcessComplete(Job, Result<ProcessedImage, Error>),
    TrimProgress(Job, Float32),
    TrimComplete(Job, Result<(), Error>),
    SidecarMetadataParseWarning(Clip, String, u32, String),
    SidecarMetadataParseError(Clip, String, u32, String),
    PreparePipelineComplete(Result<(), Error>),
}

/// The typed message a raw notification must become: same objects, and the
/// status decoded by the single rule — zero hands over the payload handle,
/// anything else hands over only the failure carrying that code.
pub open spec fn completion_matches(ev: PendingEvent, c: Completion) -> bool {
    match ev {
        PendingEvent::ReadComplete { job_id, status, frame_id, .. } => {
            &&& c matches Completion::ReadComplete(j, res) && j.id() == job_id && (status == 0
                ==> (res matches Ok(f) && f.id() == frame_id)) && (status != 0 ==> res == Result::<
                Frame,
                Error,
            >::Err(Error { result: status }))
        },
        PendingEvent::DecodeComplete { job_id, status, .. } => {
            &&& c matches Completion::DecodeComplete(j, res) && j.id() == job_id && (status == 0
                ==> res == Result::<(), Error>::Ok(())) && (status != 0 ==> res == Result::<
                (),
                Error,
            >::Err(Error { result: status }))
        },
        PendingEvent::ProcessComplete { job_id, status, image_id, .. } => {
            &&& c matches Completion::ProcessComplete(j, res) && j.id() == job_id && (status == 0
                ==> (res matches Ok(p) && p.id() == image_id)) && (status != 0 ==> res == Result::<
                ProcessedImage,
                Error,
            >::Err(Error { result: status }))
        },
        PendingEvent::TrimProgress { job_id, progress, .. } => {
            &&& c matches Completion::TrimProgress(j, p) && j.id() == job_id && p == progress
        },
        PendingEvent::TrimComplete { job_id, status, .. } => {
            &&& c matches Completion::TrimComplete(j, res) && j.id() == job_id && (status == 0
                ==> res == Result::<(), Error>::Ok(())) && (status != 0 ==> res == Result::<
                (),
                Error,
            >::Err(Error { result: status }))
        },
        PendingEvent::SidecarWarning { clip_id, filename, line_number, info, .. } => {
            &&& c matches Completion::SidecarMetadataParseWarning(cl, f, l, inf) && cl.id()
                == clip_id && f@ == filename@ && l == line_number && inf@ == info@
        },
        PendingEvent::SidecarError { clip_id, filename, line_number, info, .. } => {
            &&& c matches Completion::SidecarMetadataParseError(cl, f, l, inf) && cl.id()
                == clip_id && f@ == filename@ && l == line_number && inf@ == info@
        },
        PendingEvent::PipelinePrepared { status, .. } => {
            &&& c matches Completion::PreparePipelineComplete(res) && (status == 0 ==> res
                == Result::<(), Error>::Ok(())) && (status != 0 ==> res == Result::<(), Error>::Err(
                Error { result: status },
            ))
        },
    }
}

/// Every handle a completion message carries is a live object of its
/// kind in the engine, so the receiver's wrappers can be released.
pub open spec fn completion_wf(e: Engine, c: Completion) -> bool {
    match c {
        Completion::ReadComplete(j, res) => {
            &&& j.valid(e)
            &&& res matches Ok(f) ==> f.valid(e)
        },
        Completion::DecodeComplete(j, _) => j.valid(e),
        Completion::ProcessComplete(j, res) => {
            &&& j.valid(e)
            &&& res matches Ok(p) ==> p.valid(e)
        },
        Completion::TrimProgress(j, _) => j.valid(e),
        Completion::TrimComplete(j, _) => j.valid(e),
        Completion::SidecarMetadataParseWarning(cl, _, _, _) => cl.valid(e),
        Completion::SidecarMetadataParseError(cl, _, _, _) => cl.valid(e),
        Completion::PreparePipelineComplete(_) => true,
    }
}

/// The notifications of one codec, in production order.
pub open spec fn events_of(s: Seq<PendingEvent>, codec: usize) -> Seq<PendingEvent>
    decreases s.len(),
{
    if s.len() == 0 {
        Seq::empty()
    } else if event_codec(s[0]) == codec {
        seq![s[0]] + events_of(s.drop_first(), codec)
    } else {
        events_of(s.drop_first(), codec)
    }
}

/// The notifications of every other codec, in production order.
pub open spec fn events_of_others(s: Seq<PendingEvent>, codec: usize) -> Seq<PendingEvent>
    decreases s.len(),
{
    if s.len() == 0 {
        Seq::empty()
    } else if event_codec(s[0]) != codec {
        seq![s[0]] + events_of_others(s.drop_first(), codec)
    } else {
        events_of_others(s.drop_first(), codec)
    }
}

/// Dispatch partitions the queue: every notification either belongs to the
/// dispatching codec or stays behind, and nothing is counted twice.
pub proof fn lemma_dispatch_partition(s: Seq<PendingEvent>, codec: usize)
    ensures
        events_of(s, codec).len() + events_of_others(s, codec).len() == s.len(),
    decreases s.len(),
{
    if s.len() > 0 {
        lemma_dispatch_partition(s.drop_first(), codec);
    }
}

/// Trampoline for a read completion: decodes the status, takes ownership
/// of the references the notification holds, and builds the typed message.
/// On failure no frame handle is constructed.
pub fn trampoline_read_complete(e: &Engine, job_raw: usize, status: i32, frame_raw: usize) -> (c:
    Completion)
    requires
        e.live(job_raw, ObjectKind::Job),
        status == 0 ==> e.live(frame_raw, ObjectKind::Frame),
    ensures
        c matches Completion::ReadComplete(j, res) && j.id() == job_raw && (status == 0 ==> (
        res matches Ok(f) && f.id() == frame_raw)) && (status != 0 ==> res == Result::<
            Frame,
            Error,
        >::Err(Error { result: status })),
        completion_wf(*e, c),
{
    let job = Job::adopt(e, job_raw);
    if status == 0 {
        Completion::ReadComplete(job, Ok(Frame::adopt(e, frame_raw)))
    } else {
        Completion::ReadComplete(job, Err(Error { result: status }))
    }
}

/// Trampoline for a decode completion.
pub fn trampoline_decode_complete(e: &Engine, job_raw: usize, status: i32) -> (c: Completion)
    requires
        e.live(job_raw, ObjectKind::Job),
    ensures
        c matches Completion::DecodeComplete(j, res) && j.id() == job_raw && (status == 0 ==> res
            == Result::<(), Error>::Ok(())) && (status != 0 ==> res == Result::<(), Error>::Err(
            Error { result: status },
        )),
        completion_wf(*e, c),
{
    let job = Job::adopt(e, job_raw);
    if status == 0 {
        Completion::DecodeComplete(job, Ok(()))
    } else {
        Completion::DecodeComplete(job, Err(Error { result: status }))
    }
}

/// Trampoline for a process completion: on failure no image handle is
/// constructed.
pub fn trampoline_process_complete(e: &Engine, job_raw: usize, status: i32, image_raw: usize) -> (c:
    Completion)
    requires
        e.live(job_raw, ObjectKind::Job),
        status == 0 ==> e.live(image_raw, ObjectKind::ProcessedImage),
    ensures
        c matches Completion::ProcessComplete(j, res) && j.id() == job_raw && (status == 0 ==> (
        res matches Ok(p) && p.id() == image_raw)) && (status != 0 ==> res == Result::<
            ProcessedImage,
            Error,
        >::Err(Error { result: status })),
        completion_wf(*e, c),
{
    let job = Job::adopt(e, job_raw);
    if status == 0 {
        Completion::ProcessComplete(job, Ok(ProcessedImage::adopt(e, image_raw)))
    } else {
        Completion::ProcessComplete(job, Err(Error { result: status }))
    }
}

/// Trampoline for a trim progress report.
pub fn trampoline_trim_progress(e: &Engine, job_raw: usize, progress: Float32) -> (c: Completion)
    requires
        e.live(job_raw, ObjectKind::Job),
    ensures
        c matches Completion::TrimProgress(j, p) && j.id() == job_raw && p == progress,
        completion_wf(*e, c),
{
    Completion::TrimProgress(Job::adopt(e, job_raw), progress)
}

/// Trampoline for a trim completion.
pub fn trampoline_trim_complete(e: &Engine, job_raw: usize, status: i32) -> (c: Completion)
    requires
        e.live(job_raw, ObjectKind::Job),
    ensures
        c matches Completion::TrimComplete(j, res) && j.id() == job_raw && (status == 0 ==> res
            == Result::<(), Error>::Ok(())) && (status != 0 ==> res == Result::<(), Error>::Err(
            Error { result: status },
        )),
        completion_wf(*e, c),
{
    let job = Job::adopt(e, job_raw);
    if status == 0 {
        Completion::TrimComplete(job, Ok(()))
    } else {
        Completion::TrimComplete(job, Err(Error { result: status }))
    }
}

/// Trampoline for a sidecar parse warning.
pub fn trampoline_sidecar_warning(
    e: &Engine,
    clip_raw: usize,
    filename: String,
    line_number: u32,
    info: String,
) -> (c: Completion)
    requires
        e.live(clip_raw, ObjectKind::Clip),
    ensures
        c matches Completion::SidecarMetadataParseWarning(cl, f, l, inf) && cl.id() == clip_raw
            && f@ == filename@ && l == line_number && inf@ == info@,
        completion_wf(*e, c),
{
    Completion::SidecarMetadataParseWarning(Clip::adopt(e, clip_raw), filename, line_number, info)
}

/// Trampoline for a sidecar parse error.
pub fn trampoline_sidecar_error(
    e: &Engine,
    clip_raw: usize,
    filename: String,
    line_number: u32,
    info: String,
) -> (c: Completion)
    requires
        e.live(clip_raw, ObjectKind::Clip),
    ensures
        c matches Completion::SidecarMetadataParseError(cl, f, l, inf) && cl.id() == clip_raw && f@
            == filename@ && l == line_number && inf@ == info@,
        completion_wf(*e, c),
{
    Completion::SidecarMetadataParseError(Clip::adopt(e, clip_raw), filename, line_number, info)
}

/// Trampoline for a pipeline preparation completion.
pub fn trampoline_prepare_pipeline_complete(status: i32) -> (c: Completion)
    ensures
        c matches Completion::PreparePipelineComplete(res) && (status == 0 ==> res == Result::<
            (),
            Error,
        >::Ok(())) && (status != 0 ==> res == Result::<(), Error>::Err(Error { result: status })),
{
    if status == 0 {
        Completion::PreparePipelineComplete(Ok(()))
    } else {
        Completion::PreparePipelineComplete(Err(Error { result: status }))
    }
}

/// The codec a notification belongs to, read off the notification.
fn event_codec_of(ev: &PendingEvent) -> (c: usize)
    ensures
        c == event_codec(*ev),
{
    match ev {
        PendingEvent::ReadComplete { codec_id, .. } => *codec_id,
        PendingEvent::DecodeComplete { codec_id, .. } => *codec_id,
        PendingEvent::ProcessComplete { codec_id, .. } => *codec_id,
        PendingEvent::TrimProgress { codec_id, .. } => *codec_id,
        PendingEvent::TrimComplete { codec_id, .. } => *codec_id,
        PendingEvent::SidecarWarning { codec_id, .. } => *codec_id,
        PendingEvent::SidecarError { codec_id, .. } => *codec_id,
        PendingEvent::PipelinePrepared { codec_id, .. } => *codec_id,
    }
}

/// Turns one coherent notification into its typed completion message
/// through the matching trampoline, adopting the references the
/// notification holds.
fn convert_event(e: &Engine, ev: PendingEvent) -> (c: Completion)
    requires
        e.event_wf(ev),
    ensures
        completion_matches(ev, c),
        completion_wf(*e, c),
{
    match ev {
        PendingEvent::ReadComplete { job_id, status, frame_id, .. } => trampoline_read_complete(
            e,
            job_id,
            status,
            frame_id,
        ),
        PendingEvent::DecodeComplete { job_id, status, .. } => trampoline_decode_complete(
            e,
            job_id,
            status,
        ),
        PendingEvent::ProcessComplete { job_id, status, image_id, .. } => {
            trampoline_process_complete(e, job_id, status, image_id)
        },
        PendingEvent::TrimProgress { job_id, progress, .. } => trampoline_trim_progress(
            e,
            job_id,
            progress,
        ),
        PendingEvent::TrimComplete { job_id, status, .. } => trampoline_trim_complete(
            e,
            job_id,
            status,
        ),
        PendingEvent::SidecarWarning { clip_id, filename, line_number, info, .. } => {
            trampoline_sidecar_warning(e, clip_id, filename, line_number, info)
        },
        PendingEvent::SidecarError { clip_id, filename, line_number, info, .. } => {
            trampoline_sidecar_error(e, clip_id, filename, line_number, info)
        },
        PendingEvent::PipelinePrepared { status, .. } => trampoline_prepare_pipeline_complete(
            status,
        ),
    }
}

impl Codec {
    /// Turns every pending notification of this codec into exactly one
    /// typed completion message, in production order, and leaves the other
    /// codecs' notifications behind in theirs. Each message adopts the
    /// references its notification held, so no reference count changes:
    /// the notification's reference becomes the handle the caller
    /// receives.
    pub fn take_completions(&self, e: &mut Engine) -> (cs: Vec<Completion>)
        requires
            old(e).wf(),
            self.valid(*old(e)),
        ensures
            final(e).wf(),
            final(e).counts@ == old(e).counts@,
            final(e).payloads@ == old(e).payloads@,
            final(e).prepared_clips@ == old(e).prepared_clips@,
            final(e).factory_available == old(e).factory_available,
            final(e).pending@ == events_of_others(old(e).pending@, self.id()),
            cs@.len() == events_of(old(e).pending@, self.id()).len(),
            forall|i: int|
                0 <= i < cs@.len() ==> completion_matches(
                    events_of(old(e).pending@, self.id())[i],
                    #[trigger] cs@[i],
                ),
            forall|i: int| 0 <= i < cs@.len() ==> completion_wf(*final(e), #[trigger] cs@[i]),
    {
        let my_id = self.raw_id();
        let mut kept: Vec<PendingEvent> = Vec::new();
        let mut out: Vec<Completion> = Vec::new();
        let ghost mut mine_done: Seq<PendingEvent> = Seq::empty();
        while e.pending.len() > 0
            invariant
                e.wf(),
                e.counts@ == old(e).counts@,
                e.payloads@ == old(e).payloads@,
                e.prepared_clips@ == old(e).prepared_clips@,
                e.factory_available == old(e).factory_available,
                my_id == self.id(),
                events_of(old(e).pending@, my_id) =~= mine_done + events_of(e.pending@, my_id),
                events_of_others(old(e).pending@, my_id) =~= kept@ + events_of_others(
                    e.pending@,
                    my_id,
                ),
                forall|i: int| 0 <= i < kept@.len() ==> e.event_wf(#[trigger] kept@[i]),
                out@.len() == mine_done.len(),
                forall|i: int|
                    0 <= i < out@.len() ==> completion_matches(mine_done[i], #[trigger] out@[i]),
                forall|i: int| 0 <= i < out@.len() ==> completion_wf(*e, #[trigger] out@[i]),
            decreases e.pending.len(),
        {
            let ghost prev = e.pending@;
            let ev = e.pending.remove(0);
            let ghost ev_g = ev;
            proof {
                assert(e.pending@ =~= prev.drop_first());
                assert(ev_g == prev[0]);
                assert forall|i: int| 0 <= i < e.pending@.len() implies e.event_wf(
                    #[trigger] e.pending@[i],
                ) by {
                    assert(e.pending@[i] == prev[i + 1]);
                }
            }
            let ec = event_codec_of(&ev);
            if ec == my_id {
                let c = convert_event(e, ev);
                out.push(c);
                proof {
                    mine_done = mine_done.push(ev_g);
                    assert(events_of(prev, my_id) =~= seq![prev[0]] + events_of(
                        prev.drop_first(),
                        my_id,
                    ));
                }
            } else {
                kept.push(ev);
                proof {
                    assert(events_of_others(prev, my_id) =~= seq![prev[0]] + events_of_others(
                        prev.drop_first(),
                        my_id,
                    ));
                }
            }
        }
        e.pending = kept;
        out
    }

    /// Dispatches every pending notification of this codec: each one is
    /// turned into exactly one typed completion and handed to the matching
    /// method of the callback, in production order. This is the barrier
    /// the model offers: when the call returns, nothing of this codec's
    /// earlier work is still waiting to be observed. The model engine
    /// reports no failure here.
    pub fn flush_jobs<T: Callback>(&self, e: &mut Engine, cb: &mut T) -> (r: Result<(), Error>)
        requires
            old(e).wf(),
            self.valid(*old(e)),
        ensures
            final(e).wf(),
            final(e).counts@ == old(e).counts@,
            final(e).payloads@ == old(e).payloads@,
            final(e).prepared_clips@ == old(e).prepared_clips@,
            final(e).factory_available == old(e).factory_available,
            final(e).pending@ == events_of_others(old(e).pending@, self.id()),
            r matches Ok(u) && u == (),
    {
        let completions = self.take_completions(e);
        deliver_completions(cb, completions);
        Ok(())
    }
}

/// Hands each typed completion to the matching callback method, in order,
/// consuming every message exactly once. What the callback does with them
/// is its author's concern; the engine table is not touched.
pub(crate) fn deliver_completions<T: Callback>(cb: &mut T, completions: Vec<Completion>) {
    let mut cs = completions;
    while cs.len() > 0
        decreases cs.len(),
    {
        let c = cs.remove(0);
        match c {
            Completion::ReadComplete(job, result) => cb.read_complete(job, result),
            Completion::DecodeComplete(job, result) => cb.decode_complete(job, result),
            Completion::ProcessComplete(job, result) => cb.process_complete(job, result),
            Completion::TrimProgress(job, progress) => cb.trim_progress(job, progress),
            Completion::TrimComplete(job, result) => cb.trim_complete(job, result),
            Completion::SidecarMetadataParseWarning(clip, filename, line_number, info) => {
                cb.sidecar_metadata_parse_warning(clip, filename.as_str(), line_number, info.as_str())
            },
            Completion::SidecarMetadataParseError(clip, filename, line_number, info) => {
                cb.sidecar_metadata_parse_error(clip, filename.as_str(), line_number, info.as_str())
            },
            Completion::PreparePipelineComplete(result) => cb.prepare_pipeline_complete(result),
        }
    }
}

} // verus!
