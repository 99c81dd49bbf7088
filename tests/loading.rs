use glulx_terp::decode::Errors;
use glulx_terp::memory::{LayoutReason, Memory, MemoryError};
use glulx_terp::terp::{compute_checksum, GlulxTerp};

fn word_sum(image: &[u8]) -> u32 {
    let mut sum: u32 = 0;
    for (i, w) in image.chunks(4).enumerate() {
        if i != 8 {
            sum = sum.wrapping_add(u32::from_be_bytes([w[0], w[1], w[2], w[3]]));
        }
    }
    sum
}

fn put32(image: &mut [u8], at: usize, v: u32) {
    image[at..at + 4].copy_from_slice(&v.to_be_bytes());
}

/// The first sample image: RAM at 0x40, `end_mem` 0x100, start at 0x40.
fn sample_image() -> Vec<u8> {
    let mut image = vec![0u8; 0x40];
    image[0..4].copy_from_slice(b"Glul");
    image[4..8].copy_from_slice(&[0x00, 0x03, 0x01, 0x01]);
    put32(&mut image, 8, 0x40);
    put32(&mut image, 12, 0x40);
    put32(&mut image, 16, 0x100);
    put32(&mut image, 20, 0x100);
    put32(&mut image, 24, 0x40);
    put32(&mut image, 28, 0);
    let sum = word_sum(&image);
    put32(&mut image, 32, sum);
    image
}

fn load_error(image: Vec<u8>) -> MemoryError {
    match GlulxTerp::from_reader(image) {
        Err(Errors::MemoryError(e)) => e,
        Err(e) => panic!("unexpected error {:?}", e),
        Ok(_) => panic!("image loaded"),
    }
}

#[test]
fn loads_sample_image() {
    let terp = GlulxTerp::from_reader(sample_image()).expect("loads");
    assert_eq!(terp.pc(), 0x40);
    assert_eq!(terp.memory().len(), 0x100);
    assert_eq!(terp.memory().get_u8(0xFF), Ok(0));
}

#[test]
fn flipped_body_byte_is_bad_checksum() {
    let mut image = sample_image();
    let expected = word_sum(&image);
    image[0x30] ^= 0x01;
    let computed = word_sum(&image);
    assert_ne!(expected, computed);
    assert_eq!(load_error(image), MemoryError::BadChecksum(expected, computed));
}

#[test]
fn flipped_header_byte_is_bad_checksum() {
    let mut image = sample_image();
    image[28] = 0x80;
    assert!(matches!(load_error(image), MemoryError::BadChecksum(_, _)));
}

#[test]
fn bad_magic_comes_first() {
    let mut image = sample_image();
    image[3] = b'x';
    put32(&mut image, 8, 0x1000);
    assert_eq!(load_error(image), MemoryError::BadMagic);
}

#[test]
fn short_image_is_not_enough_data() {
    let image = sample_image()[..35].to_vec();
    assert_eq!(load_error(image), MemoryError::NotEnoughData(35));
    assert_eq!(load_error(Vec::new()), MemoryError::NotEnoughData(0));
}

#[test]
fn ram_after_ext_is_inconsistent() {
    let mut image = sample_image();
    put32(&mut image, 8, 0x80);
    assert_eq!(load_error(image), MemoryError::InconsistentLayout(LayoutReason::RamAfterExt));
}

#[test]
fn ext_past_image_is_inconsistent() {
    let mut image = sample_image();
    put32(&mut image, 12, 0x44);
    assert_eq!(load_error(image), MemoryError::InconsistentLayout(LayoutReason::ImageTooShort));
}

#[test]
fn partial_word_is_inconsistent() {
    let mut image = sample_image();
    image.push(0);
    assert_eq!(load_error(image), MemoryError::InconsistentLayout(LayoutReason::PartialWord));
}

#[test]
fn checksum_skips_its_own_word() {
    let image = sample_image();
    assert_eq!(compute_checksum(&image), word_sum(&image));
    let mut other = image.clone();
    put32(&mut other, 32, 0xDEAD_BEEF);
    assert_eq!(compute_checksum(&other), compute_checksum(&image));
}

#[test]
fn checksum_wraps() {
    let mut image = vec![0xFFu8; 40];
    put32(&mut image, 32, 0);
    // eight words of 0xFFFF_FFFF plus one more, the checksum word counting as zero
    assert_eq!(compute_checksum(&image), 0xFFFF_FFFFu32.wrapping_mul(9));
}

#[test]
fn memory_pads_to_end_mem() {
    let mem = Memory::new(sample_image()).expect("builds");
    assert_eq!(mem.len(), 0x100);
    let header = mem.get_header();
    assert_eq!(header.version.major, 3);
    assert_eq!(header.version.minor, 1);
    assert_eq!(header.version.patch, 1);
    assert_eq!(header.ram_start, 0x40);
    assert_eq!(header.end_mem, 0x100);
    assert_eq!(header.start_func, 0x40);
    assert_eq!(header.checksum, word_sum(&sample_image()));
}

#[test]
fn ext_after_end_is_inconsistent() {
    let mut image = sample_image();
    put32(&mut image, 16, 0x20);
    assert_eq!(load_error(image), MemoryError::InconsistentLayout(LayoutReason::ExtAfterEnd));
}

#[test]
fn memory_takes_partial_words() {
    let mut image = sample_image();
    image.push(0xAA);
    let mem = Memory::new(image).expect("builds");
    assert_eq!(mem.len(), 0x100);
    assert_eq!(mem.get_u8(0x40), Ok(0xAA));
    assert_eq!(mem.get_u8(0x41), Ok(0));
}

#[test]
fn memory_longer_than_end_mem_keeps_its_length() {
    let mut image = sample_image();
    put32(&mut image, 16, 0x40);
    let mem = Memory::new(image).expect("builds");
    assert_eq!(mem.len(), 0x40);
}

#[test]
fn loaded_memory_is_padded_exactly() {
    let image = sample_image();
    let terp = GlulxTerp::from_reader(image.clone()).expect("loads");
    let mem = terp.memory();
    assert_eq!(mem.len(), 0x100);
    for (i, b) in image.iter().enumerate() {
        assert_eq!(mem.get_u8(i as u32), Ok(*b));
    }
    for i in 0x40u32..0x100 {
        assert_eq!(mem.get_u8(i), Ok(0));
    }
}
