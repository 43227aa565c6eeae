use rust_nes::bus::Bus;
use rust_nes::cartridge::Cartridge;

fn cart() -> Cartridge {
    let mut v = vec![0x4E, 0x45, 0x53, 0x1A, 1, 1, 0, 0];
    v.extend_from_slice(&[0u8; 8]);
    v.extend(std::iter::repeat(0xAB).take(16384 + 8192));
    Cartridge::new(&v).unwrap()
}

#[test]
fn ram_is_mirrored_across_its_window() {
    let mut bus = Bus::new(cart());
    bus.write(0x0001, 0x5A);
    assert_eq!(bus.read(0x0001, false), 0x5A);
    assert_eq!(bus.read(0x0801, false), 0x5A);
    assert_eq!(bus.read(0x1801, true), 0x5A);
    bus.write(0x1FFF, 0x11);
    assert_eq!(bus.read(0x07FF, false), 0x11);
}

#[test]
fn unclaimed_addresses_read_zero_and_drop_writes() {
    let mut bus = Bus::new(cart());
    bus.write(0x2000, 0x42);
    bus.write(0x4020, 0x42);
    assert_eq!(bus.read(0x2000, false), 0);
    assert_eq!(bus.read(0x4020, false), 0);
    assert_eq!(bus.read(0x0000, false), 0);
}

#[test]
fn cartridge_claims_upper_half_first() {
    let mut bus = Bus::new(cart());
    assert_eq!(bus.read(0x8000, false), 0xAB);
    bus.write(0x8000, 0x01);
    assert_eq!(bus.read(0xC000, false), 0x01);
    bus.reset();
    bus.clock_tick();
    assert_eq!(bus.read(0x8000, false), 0x01);
}
