use std::io::Write;

use vstd::prelude::*;

use crate::TiffError;
use crate::compression::{
    Compression, CompressionAlgorithm, CompressionMethod, Compressor, EncodedPayload,
};
use crate::writer::TiffWriter;

verus! {

/// The zlib stream the deflate strategy stores for a byte buffer at a given
/// compression level: header, deflate blocks and checksum, fully flushed, so
/// the stream is independently decompressible.
pub uninterp spec fn zlib_compressed(level: u32, s: Seq<u8>) -> Seq<u8>;

/// Relies on `flate2::write::ZlibEncoder` over a byte vector: `write_all`
/// followed by `finish` appends one complete zlib stream for `bytes` at the
/// given level.  The stream depends on the level and the input alone.  The
/// call always succeeds: the vector sink cannot fail, and the backend reports
/// a usage error only after an earlier error or a misused flush, neither of
/// which one `write_all` followed by one `finish` on a fresh encoder can
/// reach.  Levels above 9 are excluded: the backend asserts the level range
/// when debug assertions are on.
#[verifier::external_body]
fn zlib_encode_append(buffer: &mut Vec<u8>, level: u32, bytes: &[u8])
    requires
        level <= 9,
    ensures
        final(buffer)@ == old(buffer)@ + zlib_compressed(level, bytes@),
{
    let mut encoder = flate2::write::ZlibEncoder::new(
        &mut *buffer,
        flate2::Compression::new(level),
    );
    let _ = encoder.write_all(bytes);
    let _ = encoder.finish();
}

/// Compressor that uses the Deflate algorithm to compress bytes.
#[derive(Debug)]
pub struct DeflateCompressor {
    level: u32,
    buffer: Vec<u8>,
}

impl DeflateCompressor {
    /// The codec accepts compression levels 0 through 9.
    #[verifier::type_invariant]
    spec fn level_in_range(self) -> bool {
        self.level <= 9
    }

    /// Compression level handed to the codec: 0 stores, 1 is fastest, 9 is
    /// best; 6 is the codec's own default.
    pub closed spec fn spec_level(&self) -> u32 {
        self.level
    }

    /// Contents of the reusable scratch buffer the compressed stream is
    /// staged in; empty between calls.
    pub closed spec fn scratch(&self) -> Seq<u8> {
        self.buffer@
    }

    /// Create a new deflate compressor with a specific level of compression.
    pub fn with_level(level: u32) -> (c: Self)
        requires
            level <= 9,
        ensures
            c.spec_level() == level,
            c.scratch().len() == 0,
    {
        // Allocate a reusable scratch buffer in advance: image strips are
        // usually much longer than a few bytes.
        DeflateCompressor { level, buffer: Vec::with_capacity(256) }
    }

    /// The compression level this compressor hands to the codec.
    pub fn level(&self) -> (l: u32)
        ensures
            l == self.spec_level(),
            l <= 9,
    {
        proof {
            use_type_invariant(self);
        }
        self.level
    }
}

impl Default for DeflateCompressor {
    fn default() -> (c: Self)
        ensures
            c.spec_level() == 6,
            c.scratch().len() == 0,
    {
        DeflateCompressor::with_level(6)
    }
}

impl CompressionAlgorithm for DeflateCompressor {
    fn write_to(&mut self, writer: &mut TiffWriter, bytes: &[u8]) -> (r: Result<u64, TiffError>)
        ensures
            final(self).spec_level() == old(self).spec_level(),
            bytes@.len() == 0 ==> final(self).scratch() == old(self).scratch(),
            bytes@.len() > 0 ==> final(self).scratch().len() == 0,
            match r {
                Ok(n) => bytes@.len() > 0 && final(writer).wf() && final(writer).buf@ == old(
                    writer).buf@ + zlib_compressed(old(self).spec_level(), bytes@) && n
                    == zlib_compressed(old(self).spec_level(), bytes@).len(),
                Err(e) => {
                    &&& (e == TiffError::EmptyInput <==> bytes@.len() == 0)
                    &&& (e == TiffError::WriteFailure ==> old(writer).base + old(writer).buf@.len()
                        + zlib_compressed(old(self).spec_level(), bytes@).len() > u64::MAX)
                    &&& (e == TiffError::EmptyInput || e == TiffError::WriteFailure)
                },
            },
    {
        proof {
            use_type_invariant(&*self);
        }
        if bytes.len() == 0 {
            return Err(TiffError::EmptyInput);
        }
        // Work on the scratch buffer through a local binding; it goes back,
        // cleared but not reallocated, before the call returns.
        let mut buffer: Vec<u8> = Vec::new();
        core::mem::swap(&mut self.buffer, &mut buffer);
        buffer.clear();
        zlib_encode_append(&mut buffer, self.level, bytes);
        let res = writer.write_bytes(buffer.as_slice());
        let n = buffer.len() as u64;
        // Clear the scratch buffer for the next strip.
        buffer.clear();
        core::mem::swap(&mut self.buffer, &mut buffer);
        match res {
            Ok(()) => Ok(n),
            Err(e) => Err(e),
        }
    }
}

impl Compression for DeflateCompressor {
    fn compression_method(&self) -> (m: CompressionMethod)
        ensures
            m == CompressionMethod::Deflate,
    {
        CompressionMethod::Deflate
    }

    fn get_algorithm(&self) -> (c: crate::strategy::Compressor)
        ensures
            c is Deflate,
            c->Deflate_0.spec_level() == self.spec_level(),
            c->Deflate_0.scratch().len() == 0,
    {
        proof {
            use_type_invariant(self);
        }
        crate::strategy::Compressor::Deflate(DeflateCompressor::with_level(self.level()))
    }
}

impl Compressor for DeflateCompressor {
    fn write_strip(&mut self, writer: &mut TiffWriter, bytes: &[u8]) -> (r: Result<
        EncodedPayload,
        TiffError,
    >)
        ensures
            final(self).spec_level() == old(self).spec_level(),
            bytes@.len() == 0 ==> final(self).scratch() == old(self).scratch(),
            bytes@.len() > 0 ==> final(self).scratch().len() == 0,
            match r {
                Ok(pay) => bytes@.len() > 0 && final(writer).buf@ == old(writer).buf@
                    + zlib_compressed(old(self).spec_level(), bytes@) && pay.byte_count
                    == zlib_compressed(old(self).spec_level(), bytes@).len(),
                Err(e) => {
                    &&& (e == TiffError::EmptyInput <==> bytes@.len() == 0)
                    &&& (e == TiffError::EmptyInput || e == TiffError::WriteFailure)
                },
            },
    {
        let base = writer.base;
        let len_before = writer.buf.len();
        match CompressionAlgorithm::write_to(self, writer, bytes) {
            Ok(n) => Ok(EncodedPayload { offset: base + len_before as u64, byte_count: n }),
            Err(e) => Err(e),
        }
    }
}

} // verus!
