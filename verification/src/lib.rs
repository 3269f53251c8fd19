//! Construct the on-disk header of a Linux swap area.
//!
//! A swap area starts with a fixed-layout header that the kernel recognizes
//! by a magic signature. This crate builds that header from a configuration
//! of optional values (identifier, label, page size) and writes it, at the
//! mandated byte offsets, into a seekable in-memory destination.

pub mod buffer;
pub mod layout;
pub mod writer;

pub use buffer::Buffer;
pub use writer::Error;
pub use writer::SwapHeader;
pub use writer::SwapWriter;
