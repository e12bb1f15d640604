use vstd::prelude::*;

use crate::TiffError;

verus! {

/// In-memory byte sink for one encoding session.
///
/// The sink models a seekable output stream: `base` is the absolute file
/// position at which this sink begins, and `buf` holds every byte written so
/// far, in order.  The absolute write position is therefore `base + buf.len()`,
/// and a payload's start offset is the position just before its first byte.
pub struct TiffWriter {
    pub base: u64,
    pub buf: Vec<u8>,
}

impl TiffWriter {
    /// The absolute write position stays representable as a 64-bit offset.
    pub open spec fn wf(self) -> bool {
        self.base + self.buf@.len() <= u64::MAX
    }

    /// Sink starting at absolute position zero.
    pub fn new() -> (w: TiffWriter)
        ensures
            w.base == 0,
            w.buf@ =~= Seq::<u8>::empty(),
    {
        TiffWriter { base: 0, buf: Vec::new() }
    }

    /// Sink whose first byte will land at absolute position `base`.
    pub fn with_start(base: u64) -> (w: TiffWriter)
        ensures
            w.base == base,
            w.buf@ =~= Seq::<u8>::empty(),
    {
        TiffWriter { base, buf: Vec::new() }
    }

    /// Absolute position of the next byte to be written.
    pub fn position(&self) -> (pos: u64)
        requires
            self.wf(),
        ensures
            pos == self.base + self.buf@.len(),
    {
        self.base + self.buf.len() as u64
    }

    /// Appends `data` whole, or appends nothing and reports failure when the
    /// resulting position would not fit a 64-bit offset.
    pub fn write_bytes(&mut self, data: &[u8]) -> (r: Result<(), TiffError>)
        ensures
            final(self).base == old(self).base,
            match r {
                Ok(()) => {
                    &&& final(self).buf@ =~= old(self).buf@ + data@
                    &&& old(self).base + old(self).buf@.len() + data@.len() <= u64::MAX
                },
                Err(e) => {
                    &&& e == TiffError::WriteFailure
                    &&& final(self).buf@ =~= old(self).buf@
                    &&& old(self).base + old(self).buf@.len() + data@.len() > u64::MAX
                },
            },
    {
        let room = u64::MAX - self.base;
        if self.buf.len() as u64 <= room && data.len() as u64 <= room - self.buf.len() as u64 {
            let mut i: usize = 0;
            while i < data.len()
                invariant
                    i <= data@.len(),
                    self.base == old(self).base,
                    self.buf@ =~= old(self).buf@ + data@.subrange(0, i as int),
                decreases data@.len() - i,
            {
                self.buf.push(data[i]);
                proof {
                    assert(self.buf@ =~= old(self).buf@ + data@.subrange(0, i + 1));
                }
                i = i + 1;
            }
            proof {
                assert(data@.subrange(0, data@.len() as int) =~= data@);
            }
            Ok(())
        } else {
            Err(TiffError::WriteFailure)
        }
    }

    /// Appends one byte, with the same position bound as `write_bytes`.
    pub fn write_u8(&mut self, byte: u8) -> (r: Result<(), TiffError>)
        ensures
            final(self).base == old(self).base,
            match r {
                Ok(()) => {
                    &&& final(self).buf@ =~= old(self).buf@ + seq![byte]
                    &&& old(self).base + old(self).buf@.len() + 1 <= u64::MAX
                },
                Err(e) => {
                    &&& e == TiffError::WriteFailure
                    &&& final(self).buf@ =~= old(self).buf@
                    &&& old(self).base + old(self).buf@.len() + 1 > u64::MAX
                },
            },
    {
        let room = u64::MAX - self.base;
        if self.buf.len() as u64 <= room && 1u64 <= room - self.buf.len() as u64 {
            self.buf.push(byte);
            Ok(())
        } else {
            Err(TiffError::WriteFailure)
        }
    }

    /// Hands back everything written, consuming the sink.
    pub fn into_bytes(self) -> (r: Vec<u8>)
        ensures
            r@ =~= self.buf@,
    {
        self.buf
    }
}

} // verus!
