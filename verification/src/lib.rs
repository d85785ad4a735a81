//! A small error-handling layer: wrap the error side of a `Result` in a
//! context wrapper (attaching a descriptive payload) or in a compatibility
//! wrapper, while keeping the original error reachable as the cause.

mod compat;
mod context;
mod display;
mod error;
mod fail;
mod message;
mod result_ext;

pub use compat::lemma_compat_preserves_description;
pub use compat::Compat;
pub use context::lemma_rewrap_extends_chain;
pub use context::Context;
pub use display::DisplayText;
pub use error::Error;
pub use fail::Fail;
pub use message::ErrorMessage;
pub use result_ext::ResultExt;
