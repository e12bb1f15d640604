use tiff::TiffError;
use tiff::TiffWriter;
use tiff::compression::CompressionAlgorithm;
use tiff::deflate::DeflateCompressor;
use tiff::lzw::LZWCompressor;
use tiff::packbits::PackbitsCompressor;
use tiff::uncompressed::{NoneCompressor, Uncompressed};

fn get_test_data() -> &'static [u8] {
    b"This is a string for checking various compression algorithms."
}

fn compress<C: CompressionAlgorithm>(data: &[u8], mut compressor: C) -> Vec<u8> {
    let mut writer = TiffWriter::new();
    compressor.write_to(&mut writer, data).unwrap();
    writer.into_bytes()
}

#[test]
fn compression_test_no_compression() {
    let compressed_data = compress(get_test_data(), NoneCompressor);
    assert_eq!(compressed_data, get_test_data());
}

#[test]
fn compression_test_deflate() {
    let compressed_data = compress(get_test_data(), DeflateCompressor::default());
    let expected = vec![
        0x78, 0x9C, 0x15, 0xC7, 0xD1, 0x0D, 0x80, 0x20, 0x0C, 0x04, 0xD0, 0x55, 0x6E, 0x02, 0xA7,
        0x71, 0x81, 0xA6, 0x41, 0xDA, 0x28, 0xD4, 0xF4, 0xD0, 0xF9, 0x81, 0xE4, 0xFD, 0xBC, 0xD3,
        0x9C, 0x58, 0x04, 0x1C, 0xE9, 0xBD, 0xE2, 0x8A, 0x84, 0x5A, 0xD1, 0x7B, 0xE7, 0x97, 0xF4,
        0xF8, 0x08, 0x8D, 0xF6, 0x66, 0x21, 0x3D, 0x3A, 0xE4, 0xA9, 0x91, 0x3E, 0xAC, 0xF1, 0x98,
        0xB9, 0x70, 0x17, 0x13,
    ];
    assert_eq!(compressed_data, expected);
}

#[test]
fn test_lzw() {
    let compressed_data = compress(get_test_data(), LZWCompressor::default());
    let expected = vec![
        0x80, 0x15, 0x0D, 0x06, 0x93, 0x98, 0x82, 0x08, 0x20, 0x30, 0x88, 0x0E, 0x67, 0x43, 0x91,
        0xA4, 0xDC, 0x67, 0x10, 0x19, 0x8D, 0xE7, 0x21, 0x01, 0x8C, 0xD0, 0x65, 0x31, 0x9A, 0xE1,
        0xD1, 0x03, 0xB1, 0x86, 0x1A, 0x6F, 0x3A, 0xC1, 0x4C, 0x66, 0xF3, 0x69, 0xC0, 0xE4, 0x65,
        0x39, 0x9C, 0xCD, 0x26, 0xF3, 0x74, 0x20, 0xD8, 0x67, 0x89, 0x9A, 0x4E, 0x86, 0x83, 0x69,
        0xCC, 0x5D, 0x01,
    ];
    assert_eq!(compressed_data, expected);
}

#[test]
fn test_packbits() {
    // compress empty buffer: a run-length strategy has nothing to prime
    // itself with, so this input is rejected
    {
        let mut compressor = PackbitsCompressor;
        let mut writer = TiffWriter::new();
        let result = compressor.write_to(&mut writer, &[]);
        assert_eq!(result, Err(TiffError::EmptyInput));
        let expected = Vec::<u8>::new();
        assert_eq!(writer.into_bytes(), expected);
    }

    // compress single byte
    {
        let compressed_data = compress(&[0x3F], PackbitsCompressor);
        let expected = vec![0x00, 0x3F];
        assert_eq!(compressed_data, expected);
    }

    // compress buffer with repetitive sequence
    {
        let data = b"This strrrrrrrrrrrrrrrrrrrrrrrrrrrrrrrrrrrrrrrrrrrrrrrring hangs.";
        let compressed_data = compress(data, PackbitsCompressor);
        let expected = b"\x06This st\xD1r\x09ing hangs.".to_vec();
        assert_eq!(compressed_data, expected);
    }

    // compress buffer with large repetitive and non-repetitive sequence
    {
        let mut data = b"This st".to_vec();
        for _i in 0..158 {
            data.push(b'r');
        }
        data.extend_from_slice(b"ing hangs.");
        for i in 0..158 {
            data.push(i);
        }

        let compressed_data = compress(&data, PackbitsCompressor);
        let expected = vec![
            0x06, 0x54, 0x68, 0x69, 0x73, 0x20, 0x73, 0x74, 0x81, 0x72, 0xE3, 0x72, 0x7F, 0x69,
            0x6E, 0x67, 0x20, 0x68, 0x61, 0x6E, 0x67, 0x73, 0x2E, 0x00, 0x01, 0x02, 0x03, 0x04,
            0x05, 0x06, 0x07, 0x08, 0x09, 0x0A, 0x0B, 0x0C, 0x0D, 0x0E, 0x0F, 0x10, 0x11, 0x12,
            0x13, 0x14, 0x15, 0x16, 0x17, 0x18, 0x19, 0x1A, 0x1B, 0x1C, 0x1D, 0x1E, 0x1F, 0x20,
            0x21, 0x22, 0x23, 0x24, 0x25, 0x26, 0x27, 0x28, 0x29, 0x2A, 0x2B, 0x2C, 0x2D, 0x2E,
            0x2F, 0x30, 0x31, 0x32, 0x33, 0x34, 0x35, 0x36, 0x37, 0x38, 0x39, 0x3A, 0x3B, 0x3C,
            0x3D, 0x3E, 0x3F, 0x40, 0x41, 0x42, 0x43, 0x44, 0x45, 0x46, 0x47, 0x48, 0x49, 0x4A,
            0x4B, 0x4C, 0x4D, 0x4E, 0x4F, 0x50, 0x51, 0x52, 0x53, 0x54, 0x55, 0x56, 0x57, 0x58,
            0x59, 0x5A, 0x5B, 0x5C, 0x5D, 0x5E, 0x5F, 0x60, 0x61, 0x62, 0x63, 0x64, 0x65, 0x66,
            0x67, 0x68, 0x69, 0x6A, 0x6B, 0x6C, 0x6D, 0x6E, 0x6F, 0x70, 0x71, 0x72, 0x73, 0x74,
            0x75, 0x27, 0x76, 0x77, 0x78, 0x79, 0x7A, 0x7B, 0x7C, 0x7D, 0x7E, 0x7F, 0x80, 0x81,
            0x82, 0x83, 0x84, 0x85, 0x86, 0x87, 0x88, 0x89, 0x8A, 0x8B, 0x8C, 0x8D, 0x8E, 0x8F,
            0x90, 0x91, 0x92, 0x93, 0x94, 0x95, 0x96, 0x97, 0x98, 0x99, 0x9A, 0x9B, 0x9C, 0x9D,
        ];
        assert_eq!(compressed_data, expected);
    }

    // compress teststring
    {
        let compressed_data = compress(get_test_data(), PackbitsCompressor);
        let expected =
            b"\x3CThis is a string for checking various compression algorithms.".to_vec();
        assert_eq!(compressed_data, expected);
    }
}

#[test]
fn uncompressed_test_no_compression() {
    let mut compressed_data = Vec::<u8>::new();
    let mut writer = TiffWriter::new();
    Uncompressed::default()
        .write_to(&mut writer, get_test_data())
        .unwrap();
    compressed_data.extend_from_slice(writer.buf.as_slice());
    assert_eq!(get_test_data(), compressed_data);
}
