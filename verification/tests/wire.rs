use serial_loader::wire::chunks_needed;
use serial_loader::wire::fits_header;
use serial_loader::wire::is_ack;
use serial_loader::wire::next_chunk;
use serial_loader::wire::size_header;
use serial_loader::wire::ACK_SIZE;
use serial_loader::wire::CHUNK_SIZE;
use serial_loader::wire::HEADER_SIZE;
use serial_loader::wire::MAX_IMAGE_SIZE;

fn pattern(len: usize) -> Vec<u8> {
    (0..len).map(|i| (i % 251) as u8).collect()
}

#[test]
fn sizes_on_the_wire() {
    assert_eq!(CHUNK_SIZE, 512usize);
    assert_eq!(HEADER_SIZE, 4usize);
    assert_eq!(ACK_SIZE, 2usize);
}

#[test]
fn the_header_is_little_endian() {
    assert_eq!(size_header(0), vec![0u8, 0, 0, 0]);
    assert_eq!(size_header(1), vec![1u8, 0, 0, 0]);
    assert_eq!(size_header(255), vec![255u8, 0, 0, 0]);
    assert_eq!(size_header(256), vec![0u8, 1, 0, 0]);
    assert_eq!(size_header(1024), vec![0u8, 4, 0, 0]);
    assert_eq!(size_header(0x0102_0304), vec![4u8, 3, 2, 1]);
    assert_eq!(size_header(0xFFFF_FFFF), vec![255u8, 255, 255, 255]);
}

#[test]
fn the_header_agrees_with_the_standard_encoding() {
    let lengths = [0usize, 1, 2, 511, 512, 513, 65_535, 65_536, 16_777_215, 16_777_216, 4_294_967_295];
    for len in lengths.iter() {
        assert_eq!(size_header(*len), (*len as u32).to_le_bytes().to_vec());
    }
}

#[test]
fn the_length_is_read_back_from_the_header() {
    let lengths = [0usize, 1, 255, 256, 1024, 65_536, 16_777_216, 0x7FFF_FFFF, 0xFFFF_FFFF];
    for len in lengths.iter() {
        let header = size_header(*len);
        let mut value: u64 = 0;
        for (place, byte) in header.iter().enumerate() {
            value += (*byte as u64) << (8 * place);
        }
        assert_eq!(value, *len as u64);
    }
}

#[test]
fn a_length_fits_the_header_up_to_32_bits() {
    assert_eq!(MAX_IMAGE_SIZE, 0xFFFF_FFFFusize);
    assert!(fits_header(0));
    assert!(fits_header(1024));
    assert!(fits_header(0xFFFF_FFFF));
    if usize::BITS > 32 {
        let beyond: usize = (1u64 << 32) as usize;
        assert!(!fits_header(beyond));
        assert!(!fits_header(beyond + 5));
        assert!(!fits_header(usize::MAX));
    }
}

#[test]
fn only_ok_acknowledges() {
    assert!(is_ack(b"OK"));
    assert!(is_ack(&[0x4F, 0x4B]));
    assert!(!is_ack(b"NO"));
    assert!(!is_ack(b"KO"));
    assert!(!is_ack(b"ok"));
    assert!(!is_ack(b"O"));
    assert!(!is_ack(b"K"));
    assert!(!is_ack(b"OKK"));
    assert!(!is_ack(b"OK\n"));
    assert!(!is_ack(&[0x4F, 0]));
    assert!(!is_ack(&[0, 0]));
    assert!(!is_ack(&[]));
}

#[test]
fn the_count_of_chunks_rounds_up() {
    assert_eq!(chunks_needed(0), 0usize);
    assert_eq!(chunks_needed(1), 1usize);
    assert_eq!(chunks_needed(511), 1usize);
    assert_eq!(chunks_needed(512), 1usize);
    assert_eq!(chunks_needed(513), 2usize);
    assert_eq!(chunks_needed(1024), 2usize);
    assert_eq!(chunks_needed(1025), 3usize);
    assert_eq!(chunks_needed(usize::MAX), usize::MAX / 512 + 1);
}

#[test]
fn a_chunk_is_the_next_512_bytes_or_what_is_left() {
    let image = pattern(1300);
    assert_eq!(next_chunk(&image, 0), image[0..512].to_vec());
    assert_eq!(next_chunk(&image, 512), image[512..1024].to_vec());
    assert_eq!(next_chunk(&image, 1024), image[1024..1300].to_vec());
    assert_eq!(next_chunk(&image, 1300), Vec::<u8>::new());
    assert_eq!(next_chunk(&image, 1299), vec![image[1299]]);
    assert_eq!(next_chunk(&image, 7), image[7..519].to_vec());
    assert_eq!(next_chunk(&[], 0), Vec::<u8>::new());
}

#[test]
fn the_chunks_rebuild_the_image() {
    let lengths = [0usize, 1, 511, 512, 513, 1023, 1024, 1025, 5000];
    for len in lengths.iter() {
        let image = pattern(*len);
        let mut rebuilt: Vec<u8> = Vec::new();
        let mut count: usize = 0;
        let mut last: usize = 0;
        while rebuilt.len() < image.len() {
            let piece = next_chunk(&image, rebuilt.len());
            assert!(!piece.is_empty() && piece.len() <= 512);
            last = piece.len();
            rebuilt.extend_from_slice(&piece);
            count += 1;
        }
        assert_eq!(rebuilt, image);
        assert_eq!(count, chunks_needed(*len));
        if *len > 0 {
            let expected: usize = if *len % 512 == 0 { 512 } else { *len % 512 };
            assert_eq!(last, expected);
        }
    }
}

#[test]
fn the_standard_chunking_gives_the_same_chunks() {
    let image = pattern(2049);
    let mut offset: usize = 0;
    for piece in image.chunks(512) {
        assert_eq!(next_chunk(&image, offset), piece.to_vec());
        offset += piece.len();
    }
    assert_eq!(offset, image.len());
}
