use vstd::prelude::*;

use crate::TiffError;
use crate::compression::{
    Compression, CompressionAlgorithm, CompressionMethod, Compressor, EncodedPayload,
};
use crate::writer::TiffWriter;

verus! {

// ---------------------------------------------------------------------------
// The run-length byte-packing format.
//
// The packed stream is a sequence of self-delimiting chunks.  Each chunk
// opens with one header byte `h`:
//   * `h < 128`:  the next `h + 1` bytes (1..=128 of them) are literal;
//   * `h > 128`:  the single next byte is repeated `257 - h` times
//                 (a run of 2..=128 bytes);
//   * `h == 128` is never produced.
// ---------------------------------------------------------------------------

/// Header byte announcing `n` literal bytes (meaningful for `1 <= n <= 128`).
pub open spec fn diff_header(n: int) -> u8 {
    (n - 1) as u8
}

/// Header byte announcing a run of `n` repeated bytes (meaningful for
/// `2 <= n <= 128`).
pub open spec fn rept_header(n: int) -> u8 {
    (257 - n) as u8
}

/// One step of the greedy packer, described over the state the single forward
/// pass carries:
///
///  * `j` is the index of the byte about to be observed; every byte before it
///    has been observed, and bytes `s[p..j]` are pending (seen, not yet
///    flushed);
///  * `in_run` says the pending window is a run of one repeated byte;
///  * outside a run, `r` is the distance into the pending window at which a
///    candidate run (of the byte `s[j-1]`) starts.
///
/// A run closes when its byte changes or the window would pass 128 bytes.
/// Outside a run, a full 128-byte window is flushed as one literal chunk, and
/// a repeat of the previous byte opens a run only when it is worthwhile:
/// when the candidate run already spans at least 3 bytes, or starts at the
/// very beginning of the pending window.  Whatever is pending at the end of
/// input is flushed as one final chunk.
pub open spec fn pack_step(s: Seq<u8>, j: int, p: int, in_run: bool, r: int) -> Seq<u8>
    decreases s.len() - j,
{
    if j >= s.len() || j < 1 {
        if in_run {
            seq![rept_header(j - p), s[j - 1]]
        } else {
            seq![diff_header(j - p)] + s.subrange(p, j)
        }
    } else {
        let c = s[j];
        let prev = s[j - 1];
        let bp = j + 1 - p;
        if in_run {
            if c != prev || bp > 128 {
                seq![rept_header(bp - 1), prev] + pack_step(s, j + 1, j, false, 0)
            } else {
                pack_step(s, j + 1, p, true, r)
            }
        } else {
            if bp > 128 {
                seq![diff_header(128)] + s.subrange(p, p + 128)
                    + pack_step(s, j + 1, p + 128, false, 0)
            } else if c == prev {
                if bp - r >= 3 || r == 0 {
                    if r != 0 {
                        seq![diff_header(r)] + s.subrange(p, p + r)
                            + pack_step(s, j + 1, p + r, true, r)
                    } else {
                        pack_step(s, j + 1, p, true, r)
                    }
                } else {
                    pack_step(s, j + 1, p, false, r)
                }
            } else {
                pack_step(s, j + 1, p, false, j - p)
            }
        }
    }
}

/// The packed form of a non-empty input: the pass is primed with the first
/// byte pending and observes the rest one byte at a time.
pub open spec fn pack_spec(s: Seq<u8>) -> Seq<u8> {
    pack_step(s, 1, 0, false, 0)
}

/// What the packer's state may look like; established at entry and preserved
/// by every step.
spec fn pack_inv(s: Seq<u8>, j: int, p: int, in_run: bool, r: int) -> bool {
    &&& 1 <= j <= s.len()
    &&& 0 <= p < j
    &&& j - p <= 128
    &&& if in_run {
        &&& j - p >= 2
        &&& forall|k: int| p <= k < j ==> #[trigger] s[k] == s[j - 1]
    } else {
        &&& 0 <= r <= j - p - 1
        &&& forall|k: int| p + r <= k < j ==> #[trigger] s[k] == s[j - 1]
    }
}

/// Reference decoder for the chunk format, the oracle the packer is proved
/// against.  A literal chunk yields its payload; a run chunk yields its byte
/// repeated; the no-op header 128 yields nothing; a truncated chunk yields
/// nothing further.
pub open spec fn unpack_spec(t: Seq<u8>) -> Seq<u8>
    decreases t.len(),
{
    if t.len() == 0 {
        Seq::empty()
    } else {
        let h = t[0];
        if h < 128 {
            if t.len() >= h + 2 {
                t.subrange(1, h + 2) + unpack_spec(t.skip(h + 2))
            } else {
                t.skip(1)
            }
        } else if h == 128 {
            unpack_spec(t.skip(1))
        } else {
            if t.len() >= 2 {
                Seq::new((257 - h) as nat, |i: int| t[1]) + unpack_spec(t.skip(2))
            } else {
                Seq::empty()
            }
        }
    }
}

/// The stream parses into complete chunks and never uses the no-op header.
/// Chunk bounds are then forced by the headers themselves: a literal chunk
/// carries `h + 1 <= 128` bytes, and a run chunk repeats its byte
/// `257 - h` times with `129 <= h <= 255`, a run of 2..=128.
pub open spec fn chunks_wf(t: Seq<u8>) -> bool
    decreases t.len(),
{
    if t.len() == 0 {
        true
    } else {
        let h = t[0];
        if h < 128 {
            t.len() >= h + 2 && chunks_wf(t.skip(h + 2))
        } else if h == 128 {
            false
        } else {
            t.len() >= 2 && chunks_wf(t.skip(2))
        }
    }
}

/// Decoding one literal chunk yields its payload and leaves the rest of the
/// stream to decode; the chunk is well formed exactly when the rest is.
proof fn lemma_unpack_literal(lit: Seq<u8>, rest: Seq<u8>)
    requires
        1 <= lit.len() <= 128,
    ensures
        unpack_spec(seq![diff_header(lit.len() as int)] + lit + rest) =~= lit + unpack_spec(rest),
        chunks_wf(seq![diff_header(lit.len() as int)] + lit + rest) == chunks_wf(rest),
{
    let h = diff_header(lit.len() as int);
    let t = seq![h] + lit + rest;
    assert(h == lit.len() - 1);
    assert(t[0] == h);
    assert(t.len() == 1 + lit.len() + rest.len());
    assert(t.subrange(1, h + 2) =~= lit);
    assert(t.skip(h + 2) =~= rest);
}

/// Decoding one run chunk yields its byte repeated and leaves the rest of the
/// stream to decode; the chunk is well formed exactly when the rest is.
proof fn lemma_unpack_run(b: u8, len: int, rest: Seq<u8>)
    requires
        2 <= len <= 128,
    ensures
        unpack_spec(seq![rept_header(len), b] + rest) =~= Seq::new(len as nat, |i: int| b)
            + unpack_spec(rest),
        chunks_wf(seq![rept_header(len), b] + rest) == chunks_wf(rest),
{
    let h = rept_header(len);
    let t = seq![h, b] + rest;
    assert(h == 257 - len);
    assert(h > 128);
    assert(t[0] == h);
    assert(t[1] == b);
    assert(t.len() == 2 + rest.len());
    assert(t.skip(2) =~= rest);
    assert(257 - h == len);
}

/// The single pass is faithful from any reachable state: decoding what it
/// still emits restores exactly the bytes not yet flushed, and what it emits
/// parses into well-formed chunks.
proof fn lemma_pack_step_correct(s: Seq<u8>, j: int, p: int, in_run: bool, r: int)
    requires
        pack_inv(s, j, p, in_run, r),
    ensures
        unpack_spec(pack_step(s, j, p, in_run, r)) =~= s.subrange(p, s.len() as int),
        chunks_wf(pack_step(s, j, p, in_run, r)),
    decreases s.len() - j,
{
    let n = s.len() as int;
    let empty = Seq::<u8>::empty();
    assert(unpack_spec(empty) =~= empty);
    assert(chunks_wf(empty));
    if j >= n {
        if in_run {
            let chunk = seq![rept_header(n - p), s[n - 1]];
            lemma_unpack_run(s[n - 1], n - p, empty);
            assert(chunk + empty =~= chunk);
            assert(pack_step(s, j, p, in_run, r) == chunk);
            assert(Seq::new((n - p) as nat, |i: int| s[n - 1]) + unpack_spec(empty)
                =~= s.subrange(p, n));
        } else {
            let lit = s.subrange(p, n);
            let chunk = seq![diff_header(n - p)] + lit;
            lemma_unpack_literal(lit, empty);
            assert(chunk + empty =~= chunk);
            assert(pack_step(s, j, p, in_run, r) == chunk);
            assert(lit + unpack_spec(empty) =~= s.subrange(p, n));
        }
    } else {
        let c = s[j];
        let prev = s[j - 1];
        let bp = j + 1 - p;
        if in_run {
            if c != prev || bp > 128 {
                lemma_pack_step_correct(s, j + 1, j, false, 0);
                let tail = pack_step(s, j + 1, j, false, 0);
                lemma_unpack_run(prev, bp - 1, tail);
                assert(Seq::new((bp - 1) as nat, |i: int| prev) + s.subrange(j, n)
                    =~= s.subrange(p, n));
            } else {
                lemma_pack_step_correct(s, j + 1, p, true, r);
            }
        } else {
            if bp > 128 {
                assert(j - p == 128);
                lemma_pack_step_correct(s, j + 1, p + 128, false, 0);
                let tail = pack_step(s, j + 1, p + 128, false, 0);
                let lit = s.subrange(p, p + 128);
                lemma_unpack_literal(lit, tail);
                assert(seq![diff_header(128)] + lit + tail
                    == pack_step(s, j, p, in_run, r));
                assert(lit + s.subrange(p + 128, n) =~= s.subrange(p, n));
            } else if c == prev {
                if bp - r >= 3 || r == 0 {
                    if r != 0 {
                        assert(forall|k: int| p + r <= k < j + 1 ==> #[trigger] s[k] == s[j]);
                        lemma_pack_step_correct(s, j + 1, p + r, true, r);
                        let tail = pack_step(s, j + 1, p + r, true, r);
                        let lit = s.subrange(p, p + r);
                        lemma_unpack_literal(lit, tail);
                        assert(seq![diff_header(r)] + lit + tail
                            == pack_step(s, j, p, in_run, r));
                        assert(lit + s.subrange(p + r, n) =~= s.subrange(p, n));
                    } else {
                        assert(forall|k: int| p <= k < j + 1 ==> #[trigger] s[k] == s[j]);
                        lemma_pack_step_correct(s, j + 1, p, true, r);
                    }
                } else {
                    assert(forall|k: int| p + r <= k < j + 1 ==> #[trigger] s[k] == s[j]);
                    lemma_pack_step_correct(s, j + 1, p, false, r);
                }
            } else {
                lemma_pack_step_correct(s, j + 1, p, false, j - p);
            }
        }
    }
}

/// Appends `src[from..to]` to `dst`.
fn append_slice(dst: &mut Vec<u8>, src: &[u8], from: usize, to: usize)
    requires
        from <= to <= src@.len(),
    ensures
        final(dst)@ == old(dst)@ + src@.subrange(from as int, to as int),
{
    let mut i: usize = from;
    while i < to
        invariant
            from <= i <= to <= src@.len(),
            dst@ == old(dst)@ + src@.subrange(from as int, i as int),
        decreases to - i,
    {
        let b = src[i];
        dst.push(b);
        proof {
            assert(dst@ =~= old(dst)@ + src@.subrange(from as int, i as int + 1));
        }
        i = i + 1;
    }
}

/// Packs a non-empty byte buffer, one forward pass, exactly as `pack_spec`
/// describes.
pub fn pack_bits(bytes: &[u8]) -> (out: Vec<u8>)
    requires
        bytes@.len() >= 1,
    ensures
        out@ == pack_spec(bytes@),
{
    let ghost s = bytes@;
    let n = bytes.len();
    let mut out: Vec<u8> = Vec::new();
    let mut j: usize = 1;
    let mut p: usize = 0;
    let mut r: usize = 0;
    let mut in_run = false;
    proof {
        assert(Seq::<u8>::empty() + pack_spec(s) =~= pack_spec(s));
    }
    while j < n
        invariant
            bytes@ == s,
            n == s.len(),
            j <= n,
            pack_inv(s, j as int, p as int, in_run, r as int),
            pack_spec(s) == out@ + pack_step(s, j as int, p as int, in_run, r as int),
        decreases n - j,
    {
        let ghost out0 = out@;
        let ghost j0 = j as int;
        let ghost p0 = p as int;
        let ghost r0 = r as int;
        let ghost ir0 = in_run;
        let c = bytes[j];
        let prev = bytes[j - 1];
        let bp = j + 1 - p;
        if in_run {
            if c != prev || bp > 128 {
                out.push((257 - (bp - 1)) as u8);
                out.push(prev);
                p = j;
                r = 0;
                in_run = false;
                proof {
                    assert(out@ =~= out0 + seq![rept_header(j0 - p0), prev]);
                    assert(pack_step(s, j0, p0, ir0, r0) == seq![rept_header(j0 - p0), prev]
                        + pack_step(s, j0 + 1, j0, false, 0));
                    assert(out0 + (seq![rept_header(j0 - p0), prev]
                        + pack_step(s, j0 + 1, j0, false, 0)) =~= out@
                        + pack_step(s, j0 + 1, j0, false, 0));
                }
            }
        } else {
            if bp > 128 {
                proof {
                    assert(j0 - p0 == 128);
                }
                out.push(127);
                append_slice(&mut out, bytes, p, p + 128);
                p = p + 128;
                r = 0;
                proof {
                    assert(out@ =~= out0 + (seq![diff_header(128)]
                        + s.subrange(p0, p0 + 128)));
                    assert(pack_step(s, j0, p0, ir0, r0) == seq![diff_header(128)]
                        + s.subrange(p0, p0 + 128) + pack_step(s, j0 + 1, p0 + 128, false, 0));
                    assert(out0 + (seq![diff_header(128)] + s.subrange(p0, p0 + 128)
                        + pack_step(s, j0 + 1, p0 + 128, false, 0)) =~= out@
                        + pack_step(s, j0 + 1, p0 + 128, false, 0));
                }
            } else if c == prev {
                if bp - r >= 3 || r == 0 {
                    if r != 0 {
                        out.push((r - 1) as u8);
                        append_slice(&mut out, bytes, p, p + r);
                        p = p + r;
                        proof {
                            assert(out@ =~= out0 + (seq![diff_header(r0)]
                                + s.subrange(p0, p0 + r0)));
                            assert(pack_step(s, j0, p0, ir0, r0) == seq![diff_header(r0)]
                                + s.subrange(p0, p0 + r0)
                                + pack_step(s, j0 + 1, p0 + r0, true, r0));
                            assert(out0 + (seq![diff_header(r0)] + s.subrange(p0, p0 + r0)
                                + pack_step(s, j0 + 1, p0 + r0, true, r0)) =~= out@
                                + pack_step(s, j0 + 1, p0 + r0, true, r0));
                            assert(forall|k: int| p0 + r0 <= k < j0 + 1 ==> #[trigger] s[k]
                                == s[j0]);
                        }
                    } else {
                        proof {
                            assert(forall|k: int| p0 <= k < j0 + 1 ==> #[trigger] s[k] == s[j0]);
                        }
                    }
                    in_run = true;
                } else {
                    proof {
                        assert(forall|k: int| p0 + r0 <= k < j0 + 1 ==> #[trigger] s[k] == s[j0]);
                    }
                }
            } else {
                r = j - p;
            }
        }
        j = j + 1;
    }
    if in_run {
        out.push((257 - (n - p)) as u8);
        out.push(bytes[n - 1]);
        proof {
            assert(pack_step(s, n as int, p as int, true, r as int) == seq![rept_header(
                n - p as int,
            ), s[n - 1]]);
            assert(out@ =~= pack_spec(s));
        }
    } else {
        out.push((n - p - 1) as u8);
        append_slice(&mut out, bytes, p, n);
        proof {
            assert(pack_step(s, n as int, p as int, false, r as int) == seq![diff_header(
                n - p as int,
            )] + s.subrange(p as int, n as int));
            assert(out@ =~= pack_spec(s));
        }
    }
    out
}

/// Round trip: decoding the packed form of any non-empty input restores the
/// input exactly.
pub proof fn lemma_pack_roundtrip(s: Seq<u8>)
    requires
        s.len() >= 1,
    ensures
        unpack_spec(pack_spec(s)) == s,
{
    lemma_pack_step_correct(s, 1, 0, false, 0);
    assert(s.subrange(0, s.len() as int) =~= s);
}

/// Determinism: the packed form is a function of the input bytes alone, so
/// two runs over equal inputs, each with a fresh compressor, store identical
/// bytes (each run's output is pinned to `pack_spec` by `write_to`).
pub proof fn lemma_pack_deterministic(s1: Seq<u8>, s2: Seq<u8>)
    requires
        s1 == s2,
    ensures
        pack_spec(s1) == pack_spec(s2),
{
}

/// Chunk bounds: the packed form of any non-empty input parses into complete
/// chunks, each a literal of 1..=128 bytes or a run of 2..=128 bytes.
pub proof fn lemma_pack_chunks_wf(s: Seq<u8>)
    requires
        s.len() >= 1,
    ensures
        chunks_wf(pack_spec(s)),
{
    lemma_pack_step_correct(s, 1, 0, false, 0);
}

/// Compressor that uses the Packbits algorithm to compress bytes.
///
/// Packbits is often ineffective on continuous tone images, including many
/// grayscale images.  In such cases, it is better to leave the image
/// uncompressed.
#[derive(Clone, Copy, Debug, Default)]
pub struct PackbitsCompressor;

impl CompressionAlgorithm for PackbitsCompressor {
    fn write_to(&mut self, writer: &mut TiffWriter, bytes: &[u8]) -> (r: Result<u64, TiffError>)
        ensures
            match r {
                Ok(n) => bytes@.len() > 0 && final(writer).wf() && final(writer).buf@ == old(
                    writer).buf@ + pack_spec(bytes@) && n == pack_spec(bytes@).len(),
                Err(e) => {
                    &&& (e == TiffError::EmptyInput <==> bytes@.len() == 0)
                    &&& (e == TiffError::WriteFailure ==> old(writer).base + old(writer).buf@.len() + pack_spec(bytes@).len() > u64::MAX)
                    &&& (e == TiffError::EmptyInput || e == TiffError::WriteFailure)
                },
            },
    {
        if bytes.len() == 0 {
            return Err(TiffError::EmptyInput);
        }
        let out = pack_bits(bytes);
        match writer.write_bytes(out.as_slice()) {
            Ok(()) => Ok(out.len() as u64),
            Err(e) => Err(e),
        }
    }
}

impl Compression for PackbitsCompressor {
    fn compression_method(&self) -> (m: CompressionMethod)
        ensures
            m == CompressionMethod::Packbits,
    {
        CompressionMethod::Packbits
    }

    fn get_algorithm(&self) -> (c: crate::strategy::Compressor)
        ensures
            c == crate::strategy::Compressor::Packbits(*self),
    {
        crate::strategy::Compressor::Packbits(*self)
    }
}

impl Compressor for PackbitsCompressor {
    fn write_strip(&mut self, writer: &mut TiffWriter, bytes: &[u8]) -> (r: Result<
        EncodedPayload,
        TiffError,
    >)
        ensures
            match r {
                Ok(pay) => bytes@.len() > 0 && final(writer).buf@ == old(writer).buf@ + pack_spec(
                    bytes@,
                ) && pay.byte_count == pack_spec(bytes@).len(),
                Err(e) => {
                    &&& (e == TiffError::EmptyInput <==> bytes@.len() == 0)
                    &&& (e == TiffError::EmptyInput || e == TiffError::WriteFailure)
                },
            },
    {
        let base = writer.base;
        let len_before = writer.buf.len();
        match CompressionAlgorithm::write_to(self, writer, bytes) {
            Ok(n) => Ok(EncodedPayload { offset: base + len_before as u64, byte_count: n }),
            Err(e) => Err(e),
        }
    }
}

} // verus!
