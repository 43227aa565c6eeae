use rust_nes::cartridge::{Cartridge, CartridgeError};
use rust_nes::mapper::{create_mapper, Mapper, Mapper000};

fn image(prg_banks: u8, chr_banks: u8, flags6: u8, flags7: u8) -> Vec<u8> {
    let mut v = vec![0x4E, 0x45, 0x53, 0x1A, prg_banks, chr_banks, flags6, flags7];
    v.extend_from_slice(&[0u8; 8]);
    if flags6 & 0x04 != 0 {
        v.extend(std::iter::repeat(0xEE).take(512));
    }
    for i in 0..(prg_banks as usize * 16384) {
        v.push((i % 251) as u8);
    }
    for i in 0..(chr_banks as usize * 8192) {
        v.push((i % 13) as u8 + 1);
    }
    v
}

#[test]
fn bad_signature_is_a_format_error() {
    let mut img = image(1, 1, 0, 0);
    img[3] = 0x00;
    assert_eq!(Cartridge::new(&img).err(), Some(CartridgeError::NotInes));
    let mut img = image(1, 1, 0, 0);
    img[0] = b'M';
    assert_eq!(Cartridge::new(&img).err(), Some(CartridgeError::NotInes));
}

#[test]
fn short_images_are_truncated() {
    assert_eq!(Cartridge::new(&[]).err(), Some(CartridgeError::Truncated));
    assert_eq!(Cartridge::new(&[0x4E, 0x45, 0x53, 0x1A]).err(), Some(CartridgeError::Truncated));
    let mut img = image(1, 1, 0, 0);
    img.pop();
    assert_eq!(Cartridge::new(&img).err(), Some(CartridgeError::Truncated));
}

#[test]
fn unsupported_version_and_mapper() {
    let img = image(1, 1, 0, 0x08);
    assert_eq!(Cartridge::new(&img).err(), Some(CartridgeError::UnsupportedVersion(2)));
    let img = image(1, 1, 0x10, 0);
    assert_eq!(Cartridge::new(&img).err(), Some(CartridgeError::UnsupportedMapper(1)));
    let img = image(1, 1, 0x00, 0x40);
    assert_eq!(Cartridge::new(&img).err(), Some(CartridgeError::UnsupportedMapper(0x40)));
}

#[test]
fn zero_program_banks_read_as_zero() {
    let mut cart = Cartridge::new(&image(0, 1, 0, 0)).unwrap();
    assert_eq!(cart.cpu_read(0x8000), Some(0));
    assert_eq!(cart.cpu_read(0xFFFF), Some(0));
    assert!(cart.cpu_write(0xC000, 1));
    assert_eq!(cart.cpu_read(0xC000), Some(0));
    assert_eq!(cart.cpu_read(0x7FFF), None);
    assert_eq!(cart.ppu_read(0x0000), Some(1));
    let cart = Cartridge::new(&image(0, 1, 0x04, 0)).unwrap();
    assert_eq!(cart.cpu_read(0x8000), Some(0));
    assert_eq!(cart.ppu_read(0x0001), Some(2));
}

#[test]
fn mapper_is_checked_before_version() {
    let img = image(1, 1, 0x10, 0x08);
    assert_eq!(Cartridge::new(&img).err(), Some(CartridgeError::UnsupportedMapper(1)));
}

#[test]
fn single_bank_program_is_mirrored() {
    let cart = Cartridge::new(&image(1, 1, 0, 0)).unwrap();
    for i in 0..0x4000u16 {
        let low = cart.cpu_read(0x8000 + i);
        assert_eq!(low, cart.cpu_read(0xC000 + i));
        assert_eq!(low, Some((i as usize % 251) as u8));
    }
}

#[test]
fn two_bank_program_is_not_mirrored() {
    let cart = Cartridge::new(&image(2, 1, 0, 0)).unwrap();
    assert_eq!(cart.cpu_read(0xC000), Some((0x4000usize % 251) as u8));
    assert_eq!(cart.cpu_read(0xFFFF), Some((0x7FFFusize % 251) as u8));
    assert_ne!(cart.cpu_read(0x8001), cart.cpu_read(0xC001));
}

#[test]
fn cartridge_ignores_low_addresses() {
    let mut cart = Cartridge::new(&image(1, 1, 0, 0)).unwrap();
    assert_eq!(cart.cpu_read(0x7FFF), None);
    assert_eq!(cart.cpu_read(0x0000), None);
    assert!(!cart.cpu_write(0x6000, 1));
    assert!(cart.cpu_write(0x8005, 0x99));
    assert_eq!(cart.cpu_read(0xC005), Some(0x99));
}

#[test]
fn trainer_is_skipped() {
    let cart = Cartridge::new(&image(1, 1, 0x04, 0)).unwrap();
    assert_eq!(cart.cpu_read(0x8000), Some(0));
    assert_eq!(cart.cpu_read(0x8001), Some(1));
    assert_eq!(cart.ppu_read(0x0000), Some(1));
}

#[test]
fn character_rom_refuses_writes() {
    let mut cart = Cartridge::new(&image(1, 1, 0, 0)).unwrap();
    assert_eq!(cart.ppu_read(0x0001), Some(2));
    assert_eq!(cart.ppu_read(0x1FFF), Some((0x1FFF % 13) as u8 + 1));
    assert_eq!(cart.ppu_read(0x2000), None);
    assert!(!cart.ppu_write(0x0001, 0x55));
    assert_eq!(cart.ppu_read(0x0001), Some(2));
}

#[test]
fn character_ram_when_no_banks_declared() {
    let mut cart = Cartridge::new(&image(1, 0, 0, 0)).unwrap();
    assert_eq!(cart.ppu_read(0x0000), Some(0));
    assert_eq!(cart.ppu_read(0x1FFF), Some(0));
    assert!(cart.ppu_write(0x1234, 0x77));
    assert_eq!(cart.ppu_read(0x1234), Some(0x77));
    assert!(!cart.ppu_write(0x2000, 0x77));
    cart.reset();
    assert_eq!(cart.ppu_read(0x1234), Some(0x77));
}

#[test]
fn mapper_zero_translation() {
    let one = Mapper000::new(1, 0);
    assert_eq!(one.cpu_map_read(0x8000), Some(0));
    assert_eq!(one.cpu_map_read(0xC123), Some(0x0123));
    assert_eq!(one.cpu_map_write(0xFFFF), Some(0x3FFF));
    assert_eq!(one.cpu_map_read(0x7FFF), None);
    let two = Mapper000::new(2, 1);
    assert_eq!(two.cpu_map_read(0xC123), Some(0x4123));
    assert_eq!(two.ppu_map_read(0x1FFF), Some(0x1FFF));
    assert_eq!(two.ppu_map_write(0x0000), None);
    assert_eq!(one.ppu_map_write(0x0000), Some(0));
    assert_eq!(one.ppu_map_read(0x2000), None);
    assert_eq!(Mapper000::new(0, 1).cpu_map_read(0xC001), Some(0x0001));
}

#[test]
fn only_mapper_zero_is_created() {
    assert!(create_mapper(0, 1, 1).is_some());
    assert!(create_mapper(1, 1, 1).is_none());
    assert!(create_mapper(255, 1, 1).is_none());
}
