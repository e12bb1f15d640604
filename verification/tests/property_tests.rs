use tiff::OffsetKind;
use tiff::TiffError;
use tiff::TiffWriter;
use tiff::compression::Compressor as StripCompressor;
use tiff::compression::{Compression, CompressionAlgorithm, CompressionMethod, EncodedPayload};
use tiff::deflate::DeflateCompressor;
use tiff::lzw::LZWCompressor;
use tiff::packbits::PackbitsCompressor;
use tiff::strategy;
use tiff::uncompressed::{NoneCompressor, Uncompressed};

fn pack(data: &[u8]) -> Vec<u8> {
    let mut writer = TiffWriter::new();
    PackbitsCompressor
        .write_to(&mut writer, data)
        .unwrap();
    writer.into_bytes()
}

/// Reference decoder for the run-length chunk format, the test oracle.
fn unpack(stream: &[u8]) -> Vec<u8> {
    let mut out = Vec::new();
    let mut i = 0usize;
    while i < stream.len() {
        let h = stream[i];
        if h < 128 {
            let n = h as usize + 1;
            out.extend_from_slice(&stream[i + 1..i + 1 + n]);
            i += 1 + n;
        } else if h == 128 {
            i += 1;
        } else {
            let n = 257 - h as usize;
            let b = stream[i + 1];
            for _ in 0..n {
                out.push(b);
            }
            i += 2;
        }
    }
    out
}

fn roundtrip_inputs() -> Vec<Vec<u8>> {
    let mut inputs: Vec<Vec<u8>> = vec![
        vec![0x3F],
        vec![7, 7],
        vec![7, 7, 7],
        vec![1, 2, 3],
        vec![1, 2, 2, 3],
        vec![1, 2, 2, 2, 3],
        vec![1, 2, 2, 2, 2, 3],
        vec![5; 128],
        vec![5; 129],
        vec![5; 158],
        vec![9; 300],
        b"This is a string for checking various compression algorithms.".to_vec(),
    ];
    // exactly 128 then 129 differing bytes
    inputs.push((0..128u32).map(|x| (x % 251) as u8).collect());
    inputs.push((0..129u32).map(|x| (x % 251) as u8).collect());
    inputs.push((0..130u32).map(|x| (x % 251) as u8).collect());
    // a run starting mid-window, and one starting at the window's first byte
    inputs.push(b"abcddddde".to_vec());
    inputs.push(b"dddddabc".to_vec());
    // long literal straight into a long run
    let mut mixed: Vec<u8> = (0..140u32).map(|x| (x % 251) as u8).collect();
    mixed.extend_from_slice(&[42; 140]);
    mixed.extend_from_slice(b"tail");
    inputs.push(mixed);
    inputs
}

#[test]
fn packbits_roundtrip() {
    for input in roundtrip_inputs() {
        let packed = pack(&input);
        assert_eq!(unpack(&packed), input);
    }
}

#[test]
fn packbits_run_boundaries() {
    // a repeat of two at the very start of the pending window is already a
    // run chunk
    assert_eq!(pack(&[7, 7]), vec![0xFF, 7]);
    // the same repeat of two in the middle of the window folds into literals
    assert_eq!(pack(&[1, 2, 2, 3]), vec![0x03, 1, 2, 2, 3]);
    // a repeat of three in the middle flushes the literal prefix and becomes
    // a run chunk
    assert_eq!(pack(&[1, 2, 2, 2, 3]), vec![0x00, 1, 0xFE, 2, 0x00, 3]);
}

#[test]
fn packbits_chunk_bounds() {
    for input in roundtrip_inputs() {
        let packed = pack(&input);
        let mut i = 0usize;
        while i < packed.len() {
            let h = packed[i];
            assert_ne!(h, 128);
            if h < 128 {
                let n = h as usize + 1;
                assert!(n >= 1 && n <= 128);
                assert!(i + 1 + n <= packed.len());
                i += 1 + n;
            } else {
                let n = 257 - h as usize;
                assert!(n >= 2 && n <= 128);
                assert!(i + 2 <= packed.len());
                i += 2;
            }
        }
        assert_eq!(i, packed.len());
    }
}

#[test]
fn strategies_are_deterministic() {
    let data = b"determinism check: aaaa bbbb cccc dddd aaaa bbbb";
    for _ in 0..2 {
        assert_eq!(pack(data), pack(data));
    }
    let run = |mut c: LZWCompressor| {
        let mut w = TiffWriter::new();
        c.write_to(&mut w, data).unwrap();
        w.into_bytes()
    };
    assert_eq!(run(LZWCompressor::default()), run(LZWCompressor::default()));
    let run_deflate = |mut c: DeflateCompressor| {
        let mut w = TiffWriter::new();
        c.write_to(&mut w, data).unwrap();
        w.into_bytes()
    };
    assert_eq!(
        run_deflate(DeflateCompressor::default()),
        run_deflate(DeflateCompressor::default())
    );
}

#[test]
fn stored_byte_count_matches_sink_growth() {
    let data = b"aaaaaaaaaaaaaaaaaaaaaaaabcdefghijklmnop";
    let mut strategies: Vec<strategy::Compressor> = vec![
        strategy::Compressor::Uncompressed(tiff::uncompressed::Uncompressed),
        strategy::Compressor::Lzw(LZWCompressor::default()),
        strategy::Compressor::Deflate(DeflateCompressor::default()),
        strategy::Compressor::Packbits(PackbitsCompressor),
    ];
    for s in strategies.iter_mut() {
        let mut writer = TiffWriter::with_start(1000);
        writer.write_bytes(b"already there").unwrap();
        let before = writer.buf.len();
        let n = s.write_to(&mut writer, data).unwrap();
        assert_eq!(n, (writer.buf.len() - before) as u64);
    }
}

#[test]
fn empty_input_is_rejected_by_compressing_strategies() {
    let mut writer = TiffWriter::new();
    assert_eq!(
        PackbitsCompressor.write_to(&mut writer, &[]),
        Err(TiffError::EmptyInput)
    );
    assert_eq!(
        LZWCompressor::default().write_to(&mut writer, &[]),
        Err(TiffError::EmptyInput)
    );
    assert_eq!(
        DeflateCompressor::default().write_to(&mut writer, &[]),
        Err(TiffError::EmptyInput)
    );
    // the store-as-is strategy accepts an empty strip
    assert_eq!(NoneCompressor.write_to(&mut writer, &[]), Ok(0));
    assert_eq!(writer.buf.len(), 0);
}

#[test]
fn offset_policy_bounds() {
    assert_eq!(
        OffsetKind::Classic.convert_offset(0x1_0000_0000),
        Err(TiffError::OffsetOverflow)
    );
    assert_eq!(OffsetKind::Big.convert_offset(0x1_0000_0000), Ok(0x1_0000_0000));
    assert_eq!(OffsetKind::Classic.convert_offset(0xFFFF_FFFF), Ok(0xFFFF_FFFF));
    assert_eq!(OffsetKind::Classic.convert_offset(0), Ok(0));
}

#[test]
fn encode_strip_reports_offset_and_count() {
    let mut writer = TiffWriter::with_start(10);
    let mut compressor = strategy::Compressor::Packbits(PackbitsCompressor);
    let payload =
        strategy::encode_strip(&mut compressor, &mut writer, &[0x3F], OffsetKind::Classic).unwrap();
    assert_eq!(
        payload,
        EncodedPayload {
            offset: 10,
            byte_count: 2
        }
    );
    assert_eq!(writer.buf, vec![0x00, 0x3F]);

    // a second strip lands right after the first
    let payload2 =
        strategy::encode_strip(&mut compressor, &mut writer, &[1, 2, 3], OffsetKind::Classic)
            .unwrap();
    assert_eq!(payload2.offset, 12);
    assert_eq!(payload2.byte_count, 4);
}

#[test]
fn encode_strip_rejects_wide_offset_under_classic_policy() {
    let mut writer = TiffWriter::with_start(0x1_0000_0000);
    let mut compressor = strategy::Compressor::Packbits(PackbitsCompressor);
    let r = strategy::encode_strip(&mut compressor, &mut writer, &[0x3F], OffsetKind::Classic);
    assert_eq!(r, Err(TiffError::OffsetOverflow));
    // the same position is fine under the 64-bit policy
    let mut writer = TiffWriter::with_start(0x1_0000_0000);
    let payload =
        strategy::encode_strip(&mut compressor, &mut writer, &[0x3F], OffsetKind::Big).unwrap();
    assert_eq!(payload.offset, 0x1_0000_0000);
}

#[test]
fn sink_write_failure_is_reported() {
    let mut writer = TiffWriter::with_start(u64::MAX);
    assert_eq!(
        NoneCompressor.write_to(&mut writer, &[1]),
        Err(TiffError::WriteFailure)
    );
    assert_eq!(writer.buf.len(), 0);
}

#[test]
fn deflate_level_is_kept() {
    assert_eq!(DeflateCompressor::with_level(3).level(), 3);
    assert_eq!(DeflateCompressor::default().level(), 6);
    // level 0 stores without compressing; the stream is still framed
    let mut w = TiffWriter::new();
    DeflateCompressor::with_level(0).write_to(&mut w, b"abc").unwrap();
    assert!(w.buf.len() > 0);
}

#[test]
fn lzw_roundtrips_through_reference_decoder() {
    let data = b"This is a string for checking various compression algorithms.";
    let mut writer = TiffWriter::new();
    LZWCompressor::default().write_to(&mut writer, data).unwrap();
    let encoded = writer.into_bytes();
    assert_ne!(encoded, data.to_vec());
    let mut decoder = weezl::decode::Decoder::with_tiff_size_switch(weezl::BitOrder::Msb, 8);
    let decoded = decoder.decode(&encoded).unwrap();
    assert_eq!(decoded, data.to_vec());
}

#[test]
fn deflate_roundtrips_through_reference_decoder() {
    let data = b"This is a string for checking various compression algorithms.";
    let mut writer = TiffWriter::new();
    DeflateCompressor::with_level(9)
        .write_to(&mut writer, data)
        .unwrap();
    let encoded = writer.into_bytes();
    assert_ne!(encoded, data.to_vec());
    let mut output = Vec::new();
    let mut decoder = flate2::write::ZlibDecoder::new(&mut output);
    std::io::Write::write_all(&mut decoder, &encoded).unwrap();
    decoder.finish().unwrap();
    assert_eq!(output, data.to_vec());
}

#[test]
fn write_strip_reports_payload() {
    let mut writer = TiffWriter::with_start(100);
    let payload =
        StripCompressor::write_strip(&mut PackbitsCompressor, &mut writer, &[0x3F]).unwrap();
    assert_eq!(
        payload,
        EncodedPayload {
            offset: 100,
            byte_count: 2
        }
    );
    let mut algorithm = Compression::get_algorithm(&Uncompressed);
    let n = algorithm.write_to(&mut writer, b"xyz").unwrap();
    assert_eq!(n, 3);
    assert_eq!(writer.buf, vec![0x00, 0x3F, b'x', b'y', b'z']);
}

#[test]
fn compression_method_tags() {
    assert_eq!(Compression::compression_method(&Uncompressed).tag(), 1);
    assert_eq!(
        Compression::compression_method(&LZWCompressor::default()).tag(),
        5
    );
    assert_eq!(
        Compression::compression_method(&DeflateCompressor::default()).tag(),
        8
    );
    assert_eq!(
        Compression::compression_method(&PackbitsCompressor).tag(),
        32773
    );
    assert_eq!(CompressionMethod::Packbits.tag(), 32773);
}
