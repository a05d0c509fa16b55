//! Core embedding layer of a JavaScript runtime: isolate lifecycle, module
//! registry and resolution, the native/JS message bridge, exception capture
//! as canonical JSON, and snapshot bookkeeping.
//!
//! The decision logic of the embedding core lives here and is verified; the
//! thin glue that drives the JavaScript engine itself is unverified host code
//! built around this crate.

pub mod bridge;
pub mod buf;
pub mod context;
pub mod exception;
pub mod isolate;
pub mod json;
pub mod modules;
pub mod scope;

pub use buf::deno_buf;
pub use buf::PinnedBuf;
