use vstd::prelude::*;

use crate::TiffError;
use crate::compression::{
    Compression, CompressionAlgorithm, CompressionMethod, Compressor, EncodedPayload,
};
use crate::writer::TiffWriter;

verus! {

/// The default algorithm which does not compress at all.
#[derive(Clone, Copy, Debug, Default, PartialEq, Eq, Structural)]
pub struct Uncompressed;

/// Compressor that does not compress any bytes.
#[derive(Clone, Copy, Debug, Default, PartialEq, Eq, Structural)]
pub struct NoneCompressor;

impl CompressionAlgorithm for Uncompressed {
    fn write_to(&mut self, writer: &mut TiffWriter, bytes: &[u8]) -> (r: Result<u64, TiffError>)
        ensures
            match r {
                Ok(n) => final(writer).wf() && final(writer).buf@ == old(writer).buf@ + bytes@ && n
                    == bytes@.len(),
                Err(e) => e == TiffError::WriteFailure && old(writer).base + old(writer).buf@.len() + bytes@.len() > u64::MAX,
            },
    {
        match writer.write_bytes(bytes) {
            Ok(()) => Ok(bytes.len() as u64),
            Err(e) => Err(e),
        }
    }
}

impl Compression for Uncompressed {
    fn compression_method(&self) -> (m: CompressionMethod)
        ensures
            m == CompressionMethod::Uncompressed,
    {
        CompressionMethod::Uncompressed
    }

    fn get_algorithm(&self) -> (c: crate::strategy::Compressor)
        ensures
            c == crate::strategy::Compressor::Uncompressed(*self),
    {
        crate::strategy::Compressor::Uncompressed(*self)
    }
}

impl Compressor for Uncompressed {
    fn write_strip(&mut self, writer: &mut TiffWriter, bytes: &[u8]) -> (r: Result<
        EncodedPayload,
        TiffError,
    >)
        ensures
            match r {
                Ok(pay) => final(writer).buf@ == old(writer).buf@ + bytes@ && pay.byte_count
                    == bytes@.len(),
                Err(e) => e == TiffError::WriteFailure && old(writer).base + old(writer).buf@.len() + bytes@.len() > u64::MAX,
            },
    {
        let base = writer.base;
        let len_before = writer.buf.len();
        match CompressionAlgorithm::write_to(self, writer, bytes) {
            Ok(n) => Ok(EncodedPayload { offset: base + len_before as u64, byte_count: n }),
            Err(e) => Err(e),
        }
    }
}

impl CompressionAlgorithm for NoneCompressor {
    fn write_to(&mut self, writer: &mut TiffWriter, bytes: &[u8]) -> (r: Result<u64, TiffError>)
        ensures
            match r {
                Ok(n) => final(writer).wf() && final(writer).buf@ == old(writer).buf@ + bytes@ && n
                    == bytes@.len(),
                Err(e) => e == TiffError::WriteFailure && old(writer).base + old(writer).buf@.len() + bytes@.len() > u64::MAX,
            },
    {
        match writer.write_bytes(bytes) {
            Ok(()) => Ok(bytes.len() as u64),
            Err(e) => Err(e),
        }
    }
}

impl Compressor for NoneCompressor {
    fn write_strip(&mut self, writer: &mut TiffWriter, bytes: &[u8]) -> (r: Result<
        EncodedPayload,
        TiffError,
    >)
        ensures
            match r {
                Ok(pay) => final(writer).buf@ == old(writer).buf@ + bytes@ && pay.byte_count
                    == bytes@.len(),
                Err(e) => e == TiffError::WriteFailure && old(writer).base + old(writer).buf@.len() + bytes@.len() > u64::MAX,
            },
    {
        let base = writer.base;
        let len_before = writer.buf.len();
        match CompressionAlgorithm::write_to(self, writer, bytes) {
            Ok(n) => Ok(EncodedPayload { offset: base + len_before as u64, byte_count: n }),
            Err(e) => Err(e),
        }
    }
}

} // verus!
