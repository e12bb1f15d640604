use vstd::prelude::*;

use crate::TiffError;

verus! {

/// Width of the container's native offset fields.
///
/// The classic container stores offsets in 32 bits; the big variant stores
/// them in 64 bits.  The two differ only in this width and a few header
/// constants, so the choice is carried as a value.
#[derive(Clone, Copy, Debug, PartialEq, Eq, Structural)]
pub enum OffsetKind {
    Classic,
    Big,
}

impl OffsetKind {
    /// Narrows a raw 64-bit byte position to the container's native offset
    /// width.  The conversion never truncates: a candidate beyond the 32-bit
    /// range is rejected under the classic width and accepted unchanged under
    /// the big width.
    pub fn convert_offset(self, candidate: u64) -> (r: Result<u64, TiffError>)
        ensures
            match r {
                Ok(v) => {
                    &&& v == candidate
                    &&& (self is Classic ==> candidate <= u32::MAX)
                },
                Err(e) => {
                    &&& e == TiffError::OffsetOverflow
                    &&& self is Classic
                    &&& candidate > u32::MAX
                },
            },
    {
        match self {
            OffsetKind::Classic => {
                if candidate <= u32::MAX as u64 {
                    Ok(candidate)
                } else {
                    Err(TiffError::OffsetOverflow)
                }
            },
            OffsetKind::Big => Ok(candidate),
        }
    }
}

} // verus!
