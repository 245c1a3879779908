//! Core of a sound device backend: the table of sample rates, the registry
//! of stream descriptors, and the rules by which a stream's negotiated
//! parameters become a running four-stage audio pipeline stored under the
//! stream's identifier.
//!
//! The pipeline engine itself lives outside this crate. The crate decides
//! what the engine is asked to do, in which order, and what each of its
//! replies means for the stream's slot.

pub mod backend;
pub mod error;
pub mod pipeline;
pub mod setup;
pub mod setup_laws;
pub mod stream;
pub mod virtio_sound;
