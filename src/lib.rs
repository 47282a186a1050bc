//! A fixed-capacity staging buffer that collects synchronously written bytes
//! and hands them, as one contiguous transfer, to an asynchronous byte sink.
//!
//! The buffer never grows: bytes are filled into a scratch region chosen at
//! construction, and a flush hands the populated prefix to the sink.

mod buffer;
mod error;
mod model;

pub use buffer::AwriteBuf;
pub use error::Error;
pub use model::{filled_after, filled_after_all, lemma_fills_concatenate};
