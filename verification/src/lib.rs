pub mod compression;
pub mod deflate;
pub mod lzw;
mod offset;
pub mod packbits;
pub mod strategy;
pub mod tiff_value;
pub mod uncompressed;
mod writer;

pub use offset::OffsetKind;
pub use writer::TiffWriter;

use vstd::prelude::*;

verus! {

/// Failure conditions of the encoding core.
#[derive(Clone, Copy, Debug, PartialEq, Eq, Structural)]
pub enum TiffError {
    /// A compression strategy other than the store-as-is one was given zero bytes.
    EmptyInput,
    /// A 64-bit byte position does not fit the container's native offset width.
    OffsetOverflow,
    /// A string field holds a non-ASCII character or an embedded NUL byte.
    InvalidStringValue,
    /// The output sink cannot take the bytes.
    WriteFailure,
    /// An underlying compression codec reported an internal error.  The
    /// coders bundled here have no such failure path at their fixed
    /// configurations, so no function of this crate returns it; the kind
    /// completes the error model a directory encoder must handle.
    CodecFailure,
}

} // verus!
