//! Trusted side of a document sanitizer: an untrusted worker turns each
//! document into raw RGBA pages, and this library frames, checks and tracks
//! what crosses the boundary between the two.
//!
//! The library reads no file and starts no process. Where a conversion
//! alternates between work on the machine and decisions, the decisions are
//! state machines here, and the application does what they ask for.

// What both sides share: the wire formats and the text of helper programs.
pub mod decimal;
pub mod error;
pub mod frame;
pub mod lines;
pub mod output_type;
pub mod raster;
pub mod request;

// The client: one session, one file at a time.
pub mod conversion;
pub mod conversion_laws;
pub mod events;
pub mod naming;
pub mod plan;
pub mod progress;
pub mod session;
pub mod tools;

// The worker: one document at a time.
pub mod document;
pub mod producer;
pub mod worker_plan;
pub mod worker_tools;
