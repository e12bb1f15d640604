use vstd::prelude::*;

use crate::TiffError;
use crate::compression::{CompressionAlgorithm, EncodedPayload};
use crate::deflate::{DeflateCompressor, zlib_compressed};
use crate::lzw::{LZWCompressor, lzw_compressed};
use crate::offset::OffsetKind;
use crate::packbits::{PackbitsCompressor, pack_spec};
use crate::uncompressed::Uncompressed;
use crate::writer::TiffWriter;

verus! {

/// An enum to store each compression algorithm.
///
/// The set of strategies is closed, so one value of this type dispatches to
/// any of them without dynamic dispatch.
pub enum Compressor {
    Uncompressed(Uncompressed),
    Lzw(LZWCompressor),
    Deflate(DeflateCompressor),
    Packbits(PackbitsCompressor),
}

/// The bytes the chosen strategy stores for a strip: the strip itself,
/// its run-length packed form, or the named output of the LZW or zlib coder.
pub open spec fn stored_bytes(c: Compressor, bytes: Seq<u8>) -> Seq<u8> {
    match c {
        Compressor::Uncompressed(_) => bytes,
        Compressor::Lzw(_) => lzw_compressed(bytes),
        Compressor::Deflate(d) => zlib_compressed(d.spec_level(), bytes),
        Compressor::Packbits(_) => pack_spec(bytes),
    }
}

/// Whether the strategy accepts the strip at all: only the store-as-is
/// strategy takes an empty one.
pub open spec fn accepts_input(c: Compressor, bytes: Seq<u8>) -> bool {
    bytes.len() > 0 || c is Uncompressed
}

impl Default for Compressor {
    fn default() -> (c: Self)
        ensures
            c == Compressor::Uncompressed(Uncompressed),
    {
        Compressor::Uncompressed(Uncompressed)
    }
}

impl CompressionAlgorithm for Compressor {
    fn write_to(&mut self, writer: &mut TiffWriter, bytes: &[u8]) -> (r: Result<u64, TiffError>)
        ensures
            ((*final(self)) is Uncompressed <==> (*old(self)) is Uncompressed),
            ((*final(self)) is Packbits <==> (*old(self)) is Packbits),
            ((*final(self)) is Lzw <==> (*old(self)) is Lzw),
            ((*final(self)) is Deflate <==> (*old(self)) is Deflate),
            (*old(self)) is Deflate ==> (*final(self))->Deflate_0.spec_level() == (*old(self))->Deflate_0.spec_level(),
            match r {
                Ok(n) => accepts_input(*old(self), bytes@) && final(writer).wf() && final(writer).buf@ == old(writer).buf@ + stored_bytes(*old(self), bytes@) && n == stored_bytes(
                    *old(self),
                    bytes@,
                ).len(),
                Err(e) => {
                    &&& final(writer).buf@ == old(writer).buf@
                    &&& (e == TiffError::EmptyInput <==> !accepts_input(*old(self), bytes@))
                    &&& (e == TiffError::WriteFailure <==> accepts_input(*old(self), bytes@) && old(writer).base + old(writer).buf@.len() + stored_bytes(*old(self), bytes@).len()
                        > u64::MAX)
                    &&& (e == TiffError::EmptyInput || e == TiffError::WriteFailure)
                },
            },
    {
        match self {
            Compressor::Uncompressed(algorithm) => CompressionAlgorithm::write_to(
                algorithm,
                writer,
                bytes,
            ),
            Compressor::Lzw(algorithm) => CompressionAlgorithm::write_to(algorithm, writer, bytes),
            Compressor::Deflate(algorithm) => CompressionAlgorithm::write_to(
                algorithm,
                writer,
                bytes,
            ),
            Compressor::Packbits(algorithm) => CompressionAlgorithm::write_to(
                algorithm,
                writer,
                bytes,
            ),
        }
    }
}

/// Encodes one strip: runs the chosen strategy on `bytes`, appends the stored
/// form to the sink, and passes the payload's start offset and stored byte
/// count through the container's offset policy.  This is the full path from a
/// pixel buffer to the two numbers a directory field records.
///
/// The call succeeds exactly when the strategy accepts the strip, the stored
/// form fits the sink's 64-bit position space, and, under the classic offset
/// width, both numbers fit 32 bits.
pub fn encode_strip(
    compressor: &mut Compressor,
    writer: &mut TiffWriter,
    bytes: &[u8],
    kind: OffsetKind,
) -> (r: Result<EncodedPayload, TiffError>)
    ensures
        final(writer).base == old(writer).base,
        ((*final(compressor)) is Uncompressed <==> (*old(compressor)) is Uncompressed),
        ((*final(compressor)) is Packbits <==> (*old(compressor)) is Packbits),
        ((*final(compressor)) is Lzw <==> (*old(compressor)) is Lzw),
        ((*final(compressor)) is Deflate <==> (*old(compressor)) is Deflate),
        (*old(compressor)) is Deflate ==> (*final(compressor))->Deflate_0.spec_level() == (*old(compressor))->Deflate_0.spec_level(),
        match r {
            Ok(pay) => {
                &&& accepts_input(*old(compressor), bytes@)
                &&& final(writer).buf@ == old(writer).buf@ + stored_bytes(
                    *old(compressor),
                    bytes@,
                )
                &&& pay.offset == old(writer).base + old(writer).buf@.len()
                &&& pay.byte_count == stored_bytes(*old(compressor), bytes@).len()
                &&& (kind is Classic ==> pay.offset <= u32::MAX && pay.byte_count <= u32::MAX)
            },
            Err(e) => {
                &&& (e == TiffError::EmptyInput <==> !accepts_input(*old(compressor), bytes@))
                &&& (e == TiffError::WriteFailure <==> accepts_input(*old(compressor), bytes@)
                    && old(writer).base + old(writer).buf@.len() + stored_bytes(
                    *old(compressor),
                    bytes@,
                ).len() > u64::MAX)
                &&& (e == TiffError::OffsetOverflow <==> accepts_input(*old(compressor), bytes@)
                    && old(writer).base + old(writer).buf@.len() + stored_bytes(
                    *old(compressor),
                    bytes@,
                ).len() <= u64::MAX && kind is Classic && (old(writer).base + old(writer).buf@.len() > u32::MAX || stored_bytes(*old(compressor), bytes@).len()
                    > u32::MAX))
                &&& (e == TiffError::OffsetOverflow ==> final(writer).buf@ == old(writer).buf@
                    + stored_bytes(*old(compressor), bytes@))
                &&& (e != TiffError::OffsetOverflow ==> final(writer).buf@ == old(writer).buf@)
                &&& (e == TiffError::EmptyInput || e == TiffError::WriteFailure || e
                    == TiffError::OffsetOverflow)
            },
        },
{
    let base = writer.base;
    let len_before = writer.buf.len();
    match CompressionAlgorithm::write_to(compressor, writer, bytes) {
        Ok(n) => {
            let offset = match kind.convert_offset(base + len_before as u64) {
                Ok(v) => v,
                Err(e) => {
                    return Err(e);
                },
            };
            let byte_count = match kind.convert_offset(n) {
                Ok(v) => v,
                Err(e) => {
                    return Err(e);
                },
            };
            Ok(EncodedPayload { offset, byte_count })
        },
        Err(e) => Err(e),
    }
}

} // verus!
