use glulx_terp::memory::{LayoutReason, Memory, MemoryError};

fn sample_memory() -> Memory {
    let mut image = vec![0u8; 0x40];
    image[0..4].copy_from_slice(b"Glul");
    image[8..12].copy_from_slice(&0x40u32.to_be_bytes());
    image[12..16].copy_from_slice(&0x40u32.to_be_bytes());
    image[16..20].copy_from_slice(&0x100u32.to_be_bytes());
    image[0x20..0x24].copy_from_slice(&[0x12, 0x34, 0x56, 0x78]);
    Memory::new(image).expect("builds")
}

#[test]
fn reads_are_big_endian() {
    let mem = sample_memory();
    assert_eq!(mem.get_u8(0x20), Ok(0x12));
    assert_eq!(mem.get_u16(0x21), Ok(0x3456));
    assert_eq!(mem.get_u32(0x20), Ok(0x1234_5678));
}

#[test]
fn reads_out_of_range_fail() {
    let mem = sample_memory();
    assert_eq!(mem.get_u8(0x100), Err(MemoryError::AddressOutOfRange(0x100, 1)));
    assert_eq!(mem.get_u16(0xFF), Err(MemoryError::AddressOutOfRange(0xFF, 2)));
    assert_eq!(mem.get_u32(0xFD), Err(MemoryError::AddressOutOfRange(0xFD, 4)));
    assert_eq!(mem.get_u32(0xFC), Ok(0));
    assert_eq!(
        mem.get_u32(0xFFFF_FFFF),
        Err(MemoryError::AddressOutOfRange(0xFFFF_FFFF, 4))
    );
}

#[test]
fn writes_are_big_endian() {
    let mut mem = sample_memory();
    assert_eq!(mem.set_u32(0x40, 0xA1B2_C3D4), Ok(()));
    assert_eq!(mem.get_u8(0x40), Ok(0xA1));
    assert_eq!(mem.get_u8(0x43), Ok(0xD4));
    assert_eq!(mem.set_u16(0x50, 0xBEEF), Ok(()));
    assert_eq!(mem.get_u8(0x50), Ok(0xBE));
    assert_eq!(mem.get_u8(0x51), Ok(0xEF));
    assert_eq!(mem.set_u8(0xFF, 7), Ok(()));
    assert_eq!(mem.get_u8(0xFF), Ok(7));
}

#[test]
fn writes_to_rom_fail() {
    let mut mem = sample_memory();
    assert_eq!(mem.set_u8(0x3F, 1), Err(MemoryError::WriteToROM(0x3F)));
    assert_eq!(mem.set_u32(0x20, 1), Err(MemoryError::WriteToROM(0x20)));
    assert_eq!(mem.get_u32(0x20), Ok(0x1234_5678));
}

#[test]
fn writes_out_of_range_fail() {
    let mut mem = sample_memory();
    assert_eq!(mem.set_u32(0xFE, 1), Err(MemoryError::AddressOutOfRange(0xFE, 4)));
    assert_eq!(mem.set_u16(0xFF, 1), Err(MemoryError::AddressOutOfRange(0xFF, 2)));
    assert_eq!(mem.set_u8(0x100, 1), Err(MemoryError::AddressOutOfRange(0x100, 1)));
}

#[test]
fn ram_offsets_are_relative_to_ram_start() {
    let mut mem = sample_memory();
    assert_eq!(mem.add_ram_offset(4), 0x44);
    assert_eq!(mem.set_ram_u32(4, 0x0102_0304), Ok(()));
    assert_eq!(mem.get_u32(0x44), Ok(0x0102_0304));
    assert_eq!(mem.get_ram_u32(4), Ok(0x0102_0304));
    assert_eq!(mem.get_ram_u16(5), Ok(0x0203));
    assert_eq!(mem.get_ram_u8(7), Ok(0x04));
    assert_eq!(mem.set_ram_u16(8, 0x0001_ABCD), Ok(()));
    assert_eq!(mem.get_u16(0x48), Ok(0xABCD));
    assert_eq!(mem.set_ram_u8(10, 0x1FF), Ok(()));
    assert_eq!(mem.get_u8(0x4A), Ok(0xFF));
}

#[test]
fn ram_offset_wraps() {
    let mut mem = sample_memory();
    assert_eq!(mem.add_ram_offset(0xFFFF_FFC0), 0);
    assert_eq!(mem.add_ram_offset(0xFFFF_FFFF), 0x3F);
    assert_eq!(mem.get_ram_u32(0xFFFF_FFE0), Ok(0x1234_5678));
    assert_eq!(mem.set_ram_u8(0xFFFF_FFE0, 0), Err(MemoryError::WriteToROM(0x20)));
}

#[test]
fn resize_grows_with_zeros() {
    let mut mem = sample_memory();
    assert_eq!(mem.set_u8(0xFF, 9), Ok(()));
    assert_eq!(mem.resize(0x200), Ok(()));
    assert_eq!(mem.len(), 0x200);
    assert_eq!(mem.get_u8(0xFF), Ok(9));
    assert_eq!(mem.get_u32(0x1FC), Ok(0));
}

#[test]
fn resize_shrinks_to_ext_start_only() {
    let mut mem = sample_memory();
    assert_eq!(mem.resize(0x40), Ok(()));
    assert_eq!(mem.len(), 0x40);
    assert_eq!(mem.get_u8(0x40), Err(MemoryError::AddressOutOfRange(0x40, 1)));
    assert_eq!(mem.resize(0x3C), Err(MemoryError::InconsistentLayout(LayoutReason::ExtAfterEnd)));
    assert_eq!(mem.len(), 0x40);
    assert_eq!(mem.get_u32(0x20), Ok(0x1234_5678));
}

#[test]
fn writes_from_ram_start_succeed() {
    let mut image = vec![0u8; 0x40];
    image[0..4].copy_from_slice(b"Glul");
    image[8..12].copy_from_slice(&0x10u32.to_be_bytes());
    image[12..16].copy_from_slice(&0x40u32.to_be_bytes());
    image[16..20].copy_from_slice(&0x40u32.to_be_bytes());
    let mut mem = Memory::new(image).expect("builds");
    assert_eq!(mem.set_u8(0x0F, 1), Err(MemoryError::WriteToROM(0x0F)));
    assert_eq!(mem.set_u8(0x10, 1), Ok(()));
    assert_eq!(mem.set_u32(0x20, 0x0102_0304), Ok(()));
    assert_eq!(mem.get_u32(0x20), Ok(0x0102_0304));
}

#[test]
fn ram_from_zero_is_all_writable() {
    let mut image = vec![0u8; 0x40];
    image[0..4].copy_from_slice(b"Glul");
    let mut mem = Memory::new(image).expect("builds");
    assert_eq!(mem.set_u8(20, 1), Ok(()));
    assert_eq!(mem.set_u16(20, 1), Ok(()));
    assert_eq!(mem.set_u32(20, 1), Ok(()));
    assert_eq!(mem.get_u32(20), Ok(1));
}

#[test]
fn resize_keeps_the_header() {
    let mut image = vec![0u8; 0x40];
    image[0..4].copy_from_slice(b"Glul");
    image[16..20].copy_from_slice(&0x40u32.to_be_bytes());
    let mut mem = Memory::new(image).expect("builds");
    assert_eq!(mem.resize(0x20), Err(MemoryError::NotEnoughData(0x20)));
    assert_eq!(mem.resize(36), Ok(()));
    assert_eq!(mem.len(), 36);
}
