use vstd::prelude::*;

use crate::TiffError;
use crate::writer::TiffWriter;

verus! {

/// Identifies a compression algorithm in the container's directory.
#[derive(Clone, Copy, Debug, PartialEq, Eq, Structural)]
pub enum CompressionMethod {
    Uncompressed,
    Lzw,
    Deflate,
    Packbits,
}

impl CompressionMethod {
    /// The 16-bit code the directory's compression field stores.
    pub open spec fn spec_tag(self) -> u16 {
        match self {
            CompressionMethod::Uncompressed => 1u16,
            CompressionMethod::Lzw => 5u16,
            CompressionMethod::Deflate => 8u16,
            CompressionMethod::Packbits => 32773u16,
        }
    }

    /// The 16-bit code the directory's compression field stores.
    pub fn tag(self) -> (t: u16)
        ensures
            t == self.spec_tag(),
    {
        match self {
            CompressionMethod::Uncompressed => 1,
            CompressionMethod::Lzw => 5,
            CompressionMethod::Deflate => 8,
            CompressionMethod::Packbits => 32773,
        }
    }
}

/// Result of applying one compression strategy to one strip.
#[derive(Clone, Copy, Debug, PartialEq, Eq, Structural)]
pub struct EncodedPayload {
    /// Absolute position of the payload's first byte in the sink: the sink's
    /// write position just before this call appended anything.
    pub offset: u64,
    /// Exactly the number of bytes this call appended to the sink.
    pub byte_count: u64,
}

/// An algorithm used for compression.
///
/// One call consumes one strip, appends its stored form to the sink exactly
/// once, and returns the number of bytes it appended.  On failure the sink is
/// left untouched.
pub trait CompressionAlgorithm {
    fn write_to(&mut self, writer: &mut TiffWriter, bytes: &[u8]) -> (r: Result<u64, TiffError>)
        ensures
            final(writer).base == old(writer).base,
            match r {
                Ok(n) => old(writer).buf@.is_prefix_of(final(writer).buf@) && final(writer).buf@.len() == old(writer).buf@.len() + n,
                Err(_) => final(writer).buf@ == old(writer).buf@,
            },
    ;
}

/// Strategy surface the directory encoder consumes: one call compresses one
/// strip, appends it to the sink, and reports where the payload starts and
/// how many bytes were stored there.
pub trait Compressor {
    fn write_strip(&mut self, writer: &mut TiffWriter, bytes: &[u8]) -> (r: Result<
        EncodedPayload,
        TiffError,
    >)
        ensures
            final(writer).base == old(writer).base,
            match r {
                Ok(pay) => old(writer).buf@.is_prefix_of(final(writer).buf@) && pay.offset == old(writer).base + old(writer).buf@.len() && final(writer).buf@.len() == old(writer).buf@.len() + pay.byte_count,
                Err(_) => final(writer).buf@ == old(writer).buf@,
            },
    ;
}

/// An algorithm used for compression, together with its directory tag and its
/// place in the closed set of strategies.
pub trait Compression: CompressionAlgorithm {
    /// The directory tag this algorithm is recorded under.
    fn compression_method(&self) -> CompressionMethod;

    /// This algorithm as a variant of the closed strategy set.
    fn get_algorithm(&self) -> crate::strategy::Compressor;
}

} // verus!
