//! Acquisition of the yearly higher-education census microdata: which years
//! exist, where each archive lives, how the course table is picked out of an
//! archive, checked against its pinned digest, re-encoded and stored.
//!
//! The library decides and computes; it performs no input or output. The
//! caller fetches, reads and writes, and reports back through
//! [`pipeline::PipelineEvent`].

pub mod archive;
pub mod ces;
pub mod digest;
pub mod error;
pub mod fleet;
pub mod pipeline;
pub mod text;

pub use archive::select_entry;
pub use archive::SelectionError;
pub use ces::Ces;
pub use ces::ConstructionError;
pub use digest::verify;
pub use digest::Microdata;
pub use digest::VerificationError;
pub use error::FetchError;
pub use error::IoError;
pub use error::PipelineError;
pub use fleet::aggregate;
pub use fleet::AggregateError;
pub use fleet::YearFailure;
pub use fleet::YearOutcome;
pub use pipeline::PipelineAction;
pub use pipeline::PipelineEvent;
pub use pipeline::PipelineState;
pub use pipeline::Stage;
pub use text::iso_8559_1_to_utf8;
