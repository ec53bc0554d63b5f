//! Safety layer for a reference-counted, callback-driven native codec engine.
//!
//! The engine itself (decoding algorithms, file formats, hardware paths) is an
//! opaque external collaborator; this crate models it as an explicit object
//! table ([`engine::Engine`]) and verifies the ownership, dispatch and
//! decoding discipline built on top of it:
//!
//! - [`handle::HandleRef`]: move-only ownership of exactly one reference-count
//!   increment of one engine object.
//! - [`status::StatusResult`]: the single decoding rule for native status
//!   codes (success / end-of-sequence sentinel / typed failure).
//! - [`variant`]: the self-describing tagged value decoder, including bounded
//!   array extraction with a paired lock/unlock discipline.
//! - [`bridge`]: the callback dispatch bridge that turns raw engine
//!   notifications into typed completion messages, exactly once each.
//! - [`metadata::MetadataIterator`]: the lazy, finite, single-pass metadata
//!   sequence built on the status and variant decoders.
//! - The typed pipeline facade (Factory, Codec, Clip, Job, Frame, ...) in
//!   [`facade`].

pub mod bridge;
pub mod engine;
pub mod facade;
pub mod handle;
pub mod iid;
pub mod metadata;
pub mod status;
pub mod variant;

pub use engine::{AudioProps, ClipProps, Engine, MetaEntry, ObjectKind};
pub use bridge::{Callback, Completion};
pub use facade::{
    CallbackRegistration, Clip, ClipAudio, ClipProcessingAttributes, Codec, Factory, Frame,
    FrameProcessingAttributes, Job, ProcessedImage, ResourceFormat,
};
pub use handle::HandleRef;
pub use iid::REFIID;
pub use metadata::MetadataIterator;
pub use status::{Error, ErrorKind, StatusResult, void_option_result, void_result};
pub use variant::{Float32, SafeArray, Value, VariantDecoder};
