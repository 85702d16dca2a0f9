use gbcart::bus::GBMemory;
use gbcart::mbc::MemoryBankController;

/// A 32 KiB two-bank image: bank 0 is marked 0xAA at its base, bank 1
/// is marked 0xBB, and a byte in the middle of bank 0 is marked too.
fn two_bank_image() -> Vec<u8> {
    let mut img = vec![0u8; 0x8000];
    img[0x0000] = 0xAA;
    img[0x2500] = 0xCC;
    img[0x4000] = 0xBB;
    img
}

fn rom_only_bus() -> GBMemory {
    let mbc = MemoryBankController::new(two_bank_image(), 0x00, 0).unwrap();
    GBMemory::new(mbc)
}

#[test]
fn rom_only_control_writes_are_no_ops() {
    let mut bus = rom_only_bus();
    assert_eq!(bus.read(0x0000), Some(0xAA));
    assert_eq!(bus.read(0x4000), Some(0xBB));
    // Writes into the bank-select range change nothing.
    bus.write(0x2000, 0x02);
    bus.write(0x2500, 0x07);
    bus.write(0x6000, 0x01);
    assert_eq!(bus.read(0x0000), Some(0xAA));
    assert_eq!(bus.read(0x2500), Some(0xCC));
    // The high window still exposes bank 1, whatever was written.
    assert_eq!(bus.read(0x4000), Some(0xBB));
}

#[test]
fn echo_region_observes_work_ram() {
    let mut bus = rom_only_bus();
    // Write through work RAM, read through the echo region.
    bus.write(0xC123, 0x55);
    assert_eq!(bus.read(0xE123), Some(0x55));
    // Write through the echo region, read through work RAM.
    bus.write(0xE500, 0x66);
    assert_eq!(bus.read(0xC500), Some(0x66));
}

#[test]
fn video_and_high_ram_round_trip() {
    let mut bus = rom_only_bus();
    bus.write(0x8000, 0x09);
    assert_eq!(bus.read(0x8000), Some(0x09));
    bus.write(0x9FFF, 0x0A);
    assert_eq!(bus.read(0x9FFF), Some(0x0A));
    bus.write(0xFF80, 0x0B);
    assert_eq!(bus.read(0xFF80), Some(0x0B));
    bus.write(0xFFFE, 0x0C);
    assert_eq!(bus.read(0xFFFE), Some(0x0C));
}

#[test]
fn unhandled_regions_signal_explicitly() {
    let mut bus = rom_only_bus();
    // Sprite attribute table, unusable gap, I/O ports, interrupt
    // enable register: all unhandled, never silent corruption.
    assert_eq!(bus.read(0xFE00), None);
    assert_eq!(bus.read(0xFEA0), None);
    assert_eq!(bus.read(0xFF00), None);
    assert_eq!(bus.read(0xFF7F), None);
    assert_eq!(bus.read(0xFFFF), None);
    assert!(!bus.write(0xFE00, 1));
    assert!(!bus.write(0xFF00, 1));
    assert!(!bus.write(0xFFFF, 1));
    assert!(bus.write(0xC000, 1));
}

#[test]
fn cartridge_ram_is_reachable_through_the_bus() {
    let mbc = MemoryBankController::new(two_bank_image(), 0x02, 0x02).unwrap();
    let mut bus = GBMemory::new(mbc);
    bus.write(0x0000, 0x0A);
    bus.write(0xA042, 0x77);
    assert_eq!(bus.read(0xA042), Some(0x77));
    // Disabling the latch protects the stored byte.
    bus.write(0x0000, 0x00);
    bus.write(0xA042, 0x99);
    assert_eq!(bus.read(0xA042), Some(0x77));
}

#[test]
fn mbc1_bank_switch_is_visible_through_the_bus() {
    let mut img = vec![0u8; 0x4000 * 4];
    for b in 0..4 {
        img[b * 0x4000] = 0x10 + b as u8;
    }
    let mbc = MemoryBankController::new(img, 0x01, 0).unwrap();
    let mut bus = GBMemory::new(mbc);
    assert_eq!(bus.read(0x4000), Some(0x11));
    bus.write(0x2000, 0x02);
    assert_eq!(bus.read(0x4000), Some(0x12));
    assert_eq!(bus.read(0x0000), Some(0x10));
}
