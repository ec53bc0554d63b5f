use braw::bridge::Callback;
use braw::engine::{AudioProps, ClipProps, Engine};
use braw::facade::{Clip, Codec, Factory, Frame, Job, ProcessedImage, ResourceFormat};
use braw::status::{Error, ErrorKind};
use braw::variant::Float32;

fn plain_clip() -> ClipProps {
    ClipProps {
        width: 3840,
        height: 2160,
        frame_rate: Float32(24.0f32.to_bits()),
        frame_count: 120,
        audio: None,
        metadata: Vec::new(),
    }
}

fn open_pipeline(e: &mut Engine, props: ClipProps) -> (Factory, Codec, Clip) {
    let factory = Factory::new_from_path(e, "/library").unwrap();
    let codec = factory.create_codec(e).unwrap();
    e.prepare_clip(props);
    let clip = codec.open_clip(e, "/clip").unwrap();
    (factory, codec, clip)
}

#[derive(Default)]
struct Recorder {
    reads: Vec<(usize, Result<usize, i32>)>,
    decodes: Vec<(usize, Result<(), i32>)>,
    processes: Vec<(usize, Result<usize, i32>)>,
    trim_progress: Vec<(usize, u32)>,
    trims: Vec<(usize, Result<(), i32>)>,
    sidecar_warnings: Vec<(usize, String, u32, String)>,
    pipeline_prepared: Vec<Result<(), i32>>,
    jobs: Vec<Job>,
    clips: Vec<Clip>,
    frames: Vec<Frame>,
    images: Vec<ProcessedImage>,
}

impl Callback for Recorder {
    fn read_complete(&mut self, job: Job, result: Result<Frame, Error>) {
        match result {
            Ok(frame) => {
                self.reads.push((job.raw_id(), Ok(frame.raw_id())));
                self.frames.push(frame);
            }
            Err(err) => self.reads.push((job.raw_id(), Err(err.result))),
        }
        self.jobs.push(job);
    }

    fn decode_complete(&mut self, job: Job, result: Result<(), Error>) {
        self.decodes.push((job.raw_id(), result.map_err(|err| err.result)));
        self.jobs.push(job);
    }

    fn process_complete(&mut self, job: Job, result: Result<ProcessedImage, Error>) {
        match result {
            Ok(image) => {
                self.processes.push((job.raw_id(), Ok(image.raw_id())));
                self.images.push(image);
            }
            Err(err) => self.processes.push((job.raw_id(), Err(err.result))),
        }
        self.jobs.push(job);
    }

    fn trim_progress(&mut self, job: Job, progress: Float32) {
        self.trim_progress.push((job.raw_id(), progress.0));
        self.jobs.push(job);
    }

    fn trim_complete(&mut self, job: Job, result: Result<(), Error>) {
        self.trims.push((job.raw_id(), result.map_err(|err| err.result)));
        self.jobs.push(job);
    }

    fn sidecar_metadata_parse_warning(
        &mut self,
        clip: Clip,
        filename: &str,
        line_number: u32,
        info: &str,
    ) {
        self.sidecar_warnings
            .push((clip.raw_id(), filename.to_string(), line_number, info.to_string()));
        self.clips.push(clip);
    }

    fn prepare_pipeline_complete(&mut self, result: Result<(), Error>) {
        self.pipeline_prepared.push(result.map_err(|err| err.result));
    }
}

#[test]
fn it_works() {
    let mut e = Engine::new();
    let _ = Factory::new_from_path(&mut e, "/foo");
}

// the end-to-end read scenario: open a codec, create a read-frame job for
// frame 5, submit it, let the engine finish it, and observe the callback
// receive the same logical job and an owned frame, with flush as the
// barrier after which the delivery has happened
#[test]
fn read_frame_scenario_delivers_the_same_job_and_a_frame() {
    let mut e = Engine::new();
    let (factory, codec, clip) = open_pipeline(&mut e, plain_clip());

    let registration = codec.register_callback(&mut e).unwrap();
    let job = clip.create_job_read_frame(&mut e, 5).unwrap();
    let job_id = job.raw_id();
    job.submit(&mut e).unwrap();

    // the engine finishes the job on its own side
    e.complete_read_job(job_id, 0);

    let mut recorder = Recorder::default();
    codec.flush_jobs(&mut e, &mut recorder).unwrap();

    // after the barrier the completion has been observed, exactly once
    assert_eq!(recorder.reads.len(), 1);
    let (seen_job, seen_frame) = (recorder.reads[0].0, recorder.reads[0].1);
    assert_eq!(seen_job, job_id);
    let frame_id = seen_frame.unwrap();
    assert_eq!(e.ref_count(frame_id), 1);
    // the job is owned twice: by the caller and by the delivered wrapper
    assert_eq!(e.ref_count(job_id), 2);

    registration.unregister(&mut e).unwrap();

    // release every wrapper exactly once: all counts return to zero
    for j in recorder.jobs {
        j.release(&mut e);
    }
    for f in recorder.frames {
        f.release(&mut e);
    }
    job.release(&mut e);
    clip.release(&mut e);
    codec.release(&mut e);
    factory.release(&mut e);
    assert_eq!(e.ref_count(job_id), 0);
    assert_eq!(e.ref_count(frame_id), 0);
}

#[test]
fn failed_read_delivers_only_the_failure() {
    let mut e = Engine::new();
    let (_factory, codec, clip) = open_pipeline(&mut e, plain_clip());
    let job = clip.create_job_read_frame(&mut e, 3).unwrap();
    job.submit(&mut e).unwrap();
    e.complete_read_job(job.raw_id(), -77);

    let mut recorder = Recorder::default();
    codec.flush_jobs(&mut e, &mut recorder).unwrap();
    assert_eq!(recorder.reads.len(), 1);
    assert_eq!(recorder.reads[0].1, Err(-77));
    assert!(recorder.frames.is_empty());
}

// several completions dispatched at once: every one is observed exactly
// once, in production order, and after the barrier nothing is pending
#[test]
fn every_completion_is_observed_exactly_once() {
    let mut e = Engine::new();
    let (_factory, codec, clip) = open_pipeline(&mut e, plain_clip());
    let registration = codec.register_callback(&mut e).unwrap();

    let mut job_ids = Vec::new();
    let mut jobs = Vec::new();
    for frame in 0..5u64 {
        let job = clip.create_job_read_frame(&mut e, frame).unwrap();
        job.submit(&mut e).unwrap();
        job_ids.push(job.raw_id());
        jobs.push(job);
    }
    for id in &job_ids {
        e.complete_read_job(*id, 0);
    }

    let mut recorder = Recorder::default();
    codec.flush_jobs(&mut e, &mut recorder).unwrap();
    let seen: Vec<usize> = recorder.reads.iter().map(|r| r.0).collect();
    assert_eq!(seen, job_ids);

    // the queue is drained: a second flush delivers nothing more
    let mut second = Recorder::default();
    codec.flush_jobs(&mut e, &mut second).unwrap();
    assert!(second.reads.is_empty());

    registration.unregister(&mut e).unwrap();
}

#[test]
fn the_registration_slot_is_exclusive() {
    let mut e = Engine::new();
    let factory = Factory::new_from_path(&mut e, "/library").unwrap();
    let codec = factory.create_codec(&mut e).unwrap();

    let registration = codec.register_callback(&mut e).unwrap();
    assert!(codec.register_callback(&mut e).is_err());
    registration.unregister(&mut e).unwrap();
    let again = codec.register_callback(&mut e).unwrap();
    again.unregister(&mut e).unwrap();
}

#[test]
fn set_callback_replaces_unconditionally() {
    let mut e = Engine::new();
    let factory = Factory::new_from_path(&mut e, "/library").unwrap();
    let codec = factory.create_codec(&mut e).unwrap();
    codec.set_callback(&mut e, true).unwrap();
    codec.set_callback(&mut e, true).unwrap();
    codec.set_callback(&mut e, false).unwrap();
}

// a capability query on a clip without audio is not a failure
#[test]
fn audio_capability_absent_is_ok_none() {
    let mut e = Engine::new();
    let (_factory, _codec, clip) = open_pipeline(&mut e, plain_clip());
    let r = clip.get_audio(&mut e);
    assert!(matches!(r, Ok(None)));
}

#[test]
fn audio_capability_present_exposes_its_properties() {
    let mut e = Engine::new();
    let mut props = plain_clip();
    props.audio = Some(AudioProps { channel_count: 2, sample_rate: 48000, sample_count: 960000 });
    let (_factory, _codec, clip) = open_pipeline(&mut e, props);
    let audio = clip.get_audio(&mut e).unwrap().unwrap();
    assert_eq!(audio.get_channel_count(&e).unwrap(), 2);
    assert_eq!(audio.get_sample_rate(&e).unwrap(), 48000);
    assert_eq!(audio.get_sample_count(&e).unwrap(), 960000);
    audio.release(&mut e);
}

#[test]
fn clip_getters_report_the_engine_properties() {
    let mut e = Engine::new();
    let (_factory, _codec, clip) = open_pipeline(&mut e, plain_clip());
    assert_eq!(clip.get_width(&e).unwrap(), 3840);
    assert_eq!(clip.get_height(&e).unwrap(), 2160);
    assert_eq!(clip.get_frame_count(&e).unwrap(), 120);
    assert_eq!(clip.get_frame_rate(&e).unwrap(), Float32(24.0f32.to_bits()));
}

#[test]
fn open_clip_with_nothing_to_open_fails() {
    let mut e = Engine::new();
    let factory = Factory::new_from_path(&mut e, "/library").unwrap();
    let codec = factory.create_codec(&mut e).unwrap();
    let r = codec.open_clip(&mut e, "/missing");
    assert!(matches!(r, Err(ErrorKind::Failure(Error { result: -1 }))));
}

#[test]
fn a_job_cannot_be_submitted_twice() {
    let mut e = Engine::new();
    let (_factory, _codec, clip) = open_pipeline(&mut e, plain_clip());
    let job = clip.create_job_read_frame(&mut e, 1).unwrap();
    assert!(job.submit(&mut e).is_ok());
    assert!(job.submit(&mut e).is_err());
}

#[test]
fn decode_and_process_delivers_the_image() {
    let mut e = Engine::new();
    let (_factory, codec, clip) = open_pipeline(&mut e, plain_clip());

    // obtain a frame through a finished read job
    let read_job = clip.create_job_read_frame(&mut e, 7).unwrap();
    read_job.submit(&mut e).unwrap();
    e.complete_read_job(read_job.raw_id(), 0);
    let mut recorder = Recorder::default();
    codec.flush_jobs(&mut e, &mut recorder).unwrap();
    let frame = recorder.frames.pop().unwrap();

    frame.set_resource_format(&mut e, ResourceFormat(braw::facade::FORMAT_RGBAU8)).unwrap();

    let job = frame.create_job_decode_and_process_frame(&mut e, None, None).unwrap();
    job.submit(&mut e).unwrap();
    e.complete_decode_job(job.raw_id(), 0);
    e.complete_process_job(job.raw_id(), 0, 8, 2, vec![1, 2, 3, 4]);

    let mut second = Recorder::default();
    codec.flush_jobs(&mut e, &mut second).unwrap();
    assert_eq!(second.decodes, vec![(job.raw_id(), Ok(()))]);
    assert_eq!(second.processes.len(), 1);
    assert_eq!(second.processes[0].0, job.raw_id());

    let image = second.images.pop().unwrap();
    assert_eq!(image.get_width(&e).unwrap(), 8);
    assert_eq!(image.get_height(&e).unwrap(), 2);
    assert_eq!(image.get_resource_size_bytes(&e).unwrap(), 4);
    assert_eq!(image.get_resource(&e).unwrap(), vec![1, 2, 3, 4]);
}

#[test]
fn trim_jobs_report_progress_and_completion() {
    let mut e = Engine::new();
    let (_factory, codec, clip) = open_pipeline(&mut e, plain_clip());
    let job = clip.create_job_trim(&mut e, "/out".to_string(), 10, 20).unwrap();
    job.submit(&mut e).unwrap();

    let half = 0.5f32.to_bits();
    e.notify_trim_progress(job.raw_id(), Float32(half));
    e.complete_trim_job(job.raw_id(), 0);

    let mut recorder = Recorder::default();
    codec.flush_jobs(&mut e, &mut recorder).unwrap();
    assert_eq!(recorder.trim_progress, vec![(job.raw_id(), half)]);
    assert_eq!(recorder.trims, vec![(job.raw_id(), Ok(()))]);
}

#[test]
fn sidecar_warnings_carry_their_text() {
    let mut e = Engine::new();
    let (_factory, codec, clip) = open_pipeline(&mut e, plain_clip());
    e.notify_sidecar_warning(clip.raw_id(), "/clip.sidecar".to_string(), 12, "odd key".to_string());

    let mut recorder = Recorder::default();
    codec.flush_jobs(&mut e, &mut recorder).unwrap();
    assert_eq!(
        recorder.sidecar_warnings,
        vec![(clip.raw_id(), "/clip.sidecar".to_string(), 12, "odd key".to_string())]
    );
}

#[test]
fn pipeline_preparation_reports_its_status() {
    let mut e = Engine::new();
    let factory = Factory::new_from_path(&mut e, "/library").unwrap();
    let codec = factory.create_codec(&mut e).unwrap();
    e.complete_prepare_pipeline(codec.raw_id(), 0);
    e.complete_prepare_pipeline(codec.raw_id(), 9);

    let mut recorder = Recorder::default();
    codec.flush_jobs(&mut e, &mut recorder).unwrap();
    assert_eq!(recorder.pipeline_prepared, vec![Ok(()), Err(9)]);
}

// completions are routed to the codec they belong to
#[test]
fn two_codecs_keep_their_completions_apart() {
    let mut e = Engine::new();
    let factory = Factory::new_from_path(&mut e, "/library").unwrap();
    let codec_a = factory.create_codec(&mut e).unwrap();
    let codec_b = factory.create_codec(&mut e).unwrap();
    e.prepare_clip(plain_clip());
    e.prepare_clip(plain_clip());
    let clip_a = codec_a.open_clip(&mut e, "/a").unwrap();
    let clip_b = codec_b.open_clip(&mut e, "/b").unwrap();

    let job_a = clip_a.create_job_read_frame(&mut e, 1).unwrap();
    job_a.submit(&mut e).unwrap();
    e.complete_read_job(job_a.raw_id(), 0);
    let job_b = clip_b.create_job_read_frame(&mut e, 2).unwrap();
    job_b.submit(&mut e).unwrap();
    e.complete_read_job(job_b.raw_id(), 0);

    let mut rec_a = Recorder::default();
    codec_a.flush_jobs(&mut e, &mut rec_a).unwrap();
    assert_eq!(rec_a.reads.len(), 1);
    assert_eq!(rec_a.reads[0].0, job_a.raw_id());

    let mut rec_b = Recorder::default();
    codec_b.flush_jobs(&mut e, &mut rec_b).unwrap();
    assert_eq!(rec_b.reads.len(), 1);
    assert_eq!(rec_b.reads[0].0, job_b.raw_id());
}

// the scoped combinator: register, run the body, always release
#[test]
fn with_callback_clears_the_registration_on_every_exit() {
    let mut e = Engine::new();
    let (_factory, codec, clip) = open_pipeline(&mut e, plain_clip());
    let job = clip.create_job_read_frame(&mut e, 0).unwrap();
    let job_id = job.raw_id();

    let seen = codec.with_callback(&mut e, |c, en| {
        job.submit(en).unwrap();
        en.complete_read_job(job_id, 0);
        let mut recorder = Recorder::default();
        c.flush_jobs(en, &mut recorder).unwrap();
        recorder.reads.len()
    });
    assert_eq!(seen, 1);

    // the slot is free again: a fresh registration succeeds
    let registration = codec.register_callback(&mut e).unwrap();
    registration.unregister(&mut e).unwrap();
}
