use vstd::prelude::*;

use crate::TiffError;
use crate::compression::{
    Compression, CompressionAlgorithm, CompressionMethod, Compressor, EncodedPayload,
};
use crate::writer::TiffWriter;

verus! {

/// The stream the container's LZW variant produces for a byte buffer:
/// variable-width codes, most-significant bit first, 8-bit symbols with the
/// early code-size switch, closed with an end-of-information code.
pub uninterp spec fn lzw_compressed(s: Seq<u8>) -> Seq<u8>;

/// Relies on `weezl::encode::Encoder::with_tiff_size_switch(Msb, 8)` driving
/// `into_vec(..).encode_all(..)`: appends the complete coded stream for
/// `bytes` to `buffer` and counts the bytes it appended.  The stream depends
/// on the input alone.  The coder's only error is a symbol too wide for the
/// configured size, which cannot occur at the 8-bit size fixed here, so the
/// call always succeeds.
#[verifier::external_body]
fn lzw_encode_append(buffer: &mut Vec<u8>, bytes: &[u8]) -> (n: usize)
    ensures
        final(buffer)@ == old(buffer)@ + lzw_compressed(bytes@),
        n == lzw_compressed(bytes@).len(),
{
    let mut encoder = weezl::encode::Encoder::with_tiff_size_switch(weezl::BitOrder::Msb, 8);
    let result = encoder.into_vec(buffer).encode_all(bytes);
    result.consumed_out
}

/// Compressor that uses the LZW algorithm to compress bytes.
#[derive(Clone, Debug)]
pub struct LZWCompressor {
    buffer: Vec<u8>,
}

impl LZWCompressor {
    /// Contents of the reusable scratch buffer the coded stream is staged in;
    /// empty between calls.
    pub closed spec fn scratch(&self) -> Seq<u8> {
        self.buffer@
    }
}

impl Default for LZWCompressor {
    fn default() -> (c: Self)
        ensures
            c.scratch().len() == 0,
    {
        // Allocate a reusable scratch buffer in advance: image strips are
        // usually much longer than a few bytes.
        LZWCompressor { buffer: Vec::with_capacity(256) }
    }
}

impl CompressionAlgorithm for LZWCompressor {
    fn write_to(&mut self, writer: &mut TiffWriter, bytes: &[u8]) -> (r: Result<u64, TiffError>)
        ensures
            bytes@.len() == 0 ==> final(self).scratch() == old(self).scratch(),
            bytes@.len() > 0 ==> final(self).scratch().len() == 0,
            match r {
                Ok(n) => bytes@.len() > 0 && final(writer).wf() && final(writer).buf@ == old(
                    writer).buf@ + lzw_compressed(bytes@) && n == lzw_compressed(bytes@).len(),
                Err(e) => {
                    &&& (e == TiffError::EmptyInput <==> bytes@.len() == 0)
                    &&& (e == TiffError::WriteFailure ==> old(writer).base + old(writer).buf@.len()
                        + lzw_compressed(bytes@).len() > u64::MAX)
                    &&& (e == TiffError::EmptyInput || e == TiffError::WriteFailure)
                },
            },
    {
        if bytes.len() == 0 {
            return Err(TiffError::EmptyInput);
        }
        self.buffer.clear();
        lzw_encode_append(&mut self.buffer, bytes);
        let res = writer.write_bytes(self.buffer.as_slice());
        let n = self.buffer.len() as u64;
        // Clear the scratch buffer for the next strip.
        self.buffer.clear();
        match res {
            Ok(()) => Ok(n),
            Err(e) => Err(e),
        }
    }
}

impl Compression for LZWCompressor {
    fn compression_method(&self) -> (m: CompressionMethod)
        ensures
            m == CompressionMethod::Lzw,
    {
        CompressionMethod::Lzw
    }

    fn get_algorithm(&self) -> (c: crate::strategy::Compressor)
        ensures
            c is Lzw,
            c->Lzw_0.scratch().len() == 0,
    {
        crate::strategy::Compressor::Lzw(LZWCompressor::default())
    }
}

impl Compressor for LZWCompressor {
    fn write_strip(&mut self, writer: &mut TiffWriter, bytes: &[u8]) -> (r: Result<
        EncodedPayload,
        TiffError,
    >)
        ensures
            bytes@.len() == 0 ==> final(self).scratch() == old(self).scratch(),
            bytes@.len() > 0 ==> final(self).scratch().len() == 0,
            match r {
                Ok(pay) => bytes@.len() > 0 && final(writer).buf@ == old(writer).buf@
                    + lzw_compressed(bytes@) && pay.byte_count == lzw_compressed(bytes@).len(),
                Err(e) => {
                    &&& (e == TiffError::EmptyInput <==> bytes@.len() == 0)
                    &&& (e == TiffError::EmptyInput || e == TiffError::WriteFailure)
                },
            },
    {
        let base = writer.base;
        let len_before = writer.buf.len();
        match CompressionAlgorithm::write_to(self, writer, bytes) {
            Ok(n) => Ok(EncodedPayload { offset: base + len_before as u64, byte_count: n }),
            Err(e) => Err(e),
        }
    }
}

} // verus!
