use gbcart::mbc::{ControllerError, MemoryBankController};
use gbcart::storage::{BankedRam, SaveError};

/// An image of `banks` 16 KiB banks where the first byte of each bank
/// holds the bank's own index.
fn marked_image(banks: usize) -> Vec<u8> {
    let mut img = vec![0u8; banks * 0x4000];
    for b in 0..banks {
        img[b * 0x4000] = b as u8;
    }
    img
}

/// An MBC1 controller over a full 128-bank image, with RAM of the
/// given size indicator.
fn mbc1_full(ram_indicator: u8) -> MemoryBankController {
    let kind = if ram_indicator == 0 { 0x01 } else { 0x02 };
    MemoryBankController::new(marked_image(0x80), kind, ram_indicator).unwrap()
}

#[test]
fn unsupported_cartridge_type_is_rejected() {
    let err = match MemoryBankController::new(marked_image(2), 0x05, 0) {
        Err(e) => e,
        Ok(..) => panic!("expected controller construction to fail"),
    };
    assert_eq!(err, ControllerError::UnsupportedControllerKind);
}

#[test]
fn low_window_is_always_bank_zero() {
    let mut mbc = mbc1_full(0);
    mbc.write(0x2000, 0x13);
    assert_eq!(mbc.read(0x0000), 0);
}

#[test]
fn written_low_field_zero_selects_bank_one() {
    let mut mbc = mbc1_full(0);
    mbc.write(0x2000, 0x00);
    assert_eq!(mbc.read(0x4000), 0x01);
}

#[test]
fn plain_bank_numbers_select_themselves() {
    let mut mbc = mbc1_full(0);
    mbc.write(0x2000, 0x13);
    assert_eq!(mbc.read(0x4000), 0x13);
    mbc.write(0x2000, 0x1F);
    assert_eq!(mbc.read(0x4000), 0x1F);
}

#[test]
fn high_bits_extend_the_selector_in_rom_mode() {
    let mut mbc = mbc1_full(0);
    mbc.write(0x2000, 0x13);
    mbc.write(0x4000, 0x01);
    assert_eq!(mbc.read(0x4000), 0x33);
    mbc.write(0x4000, 0x03);
    assert_eq!(mbc.read(0x4000), 0x73);
}

#[test]
fn aliased_banks_resolve_to_the_next_bank_up() {
    // Raw selectors 0x20, 0x40 and 0x60 are never exposed: each
    // resolves one bank up.
    let mut mbc = mbc1_full(0);
    for (high, expected) in [(0x01u8, 0x21u8), (0x02, 0x41), (0x03, 0x61)] {
        mbc.write(0x2000, 0x00);
        mbc.write(0x4000, high);
        assert_eq!(mbc.read(0x4000), expected);
    }
}

#[test]
fn out_of_range_bank_wraps_modulo_bank_count() {
    // Two banks only: selector 5 wraps to bank 1.
    let mut mbc = MemoryBankController::new(marked_image(2), 0x01, 0).unwrap();
    mbc.write(0x2000, 0x05);
    assert_eq!(mbc.read(0x4000), 0x01);
}

#[test]
fn mode_toggle_keeps_low_bits_and_zeroes_high_bits() {
    let mut mbc = mbc1_full(0);
    mbc.write(0x2000, 0x13);
    mbc.write(0x4000, 0x03);
    assert_eq!(mbc.read(0x4000), 0x73);
    // Entering RAM banking mode drops the high bits...
    mbc.write(0x6000, 0x01);
    assert_eq!(mbc.read(0x4000), 0x13);
    // ...and returning to ROM banking mode leaves them zeroed.
    mbc.write(0x6000, 0x00);
    assert_eq!(mbc.read(0x4000), 0x13);
}

#[test]
fn ram_round_trip_through_the_window() {
    let mut mbc = mbc1_full(0x02);
    mbc.write(0x0000, 0x0A);
    mbc.write(0xA123, 0x5A);
    assert_eq!(mbc.read(0xA123), 0x5A);
}

#[test]
fn ram_write_with_latch_disabled_is_discarded() {
    let mut mbc = mbc1_full(0x02);
    mbc.write(0x0000, 0x0A);
    mbc.write(0xA000, 0x77);
    // Any value whose low nibble is not 0xA disables writing.
    mbc.write(0x0000, 0x0B);
    mbc.write(0xA000, 0x99);
    assert_eq!(mbc.read(0xA000), 0x77);
}

#[test]
fn ram_banks_are_distinct_in_ram_banking_mode() {
    // 32 KiB of RAM: four 8 KiB banks.
    let mut mbc = mbc1_full(0x03);
    mbc.write(0x0000, 0x0A);
    mbc.write(0x6000, 0x01);
    mbc.write(0x4000, 0x00);
    mbc.write(0xA000, 0x11);
    mbc.write(0x4000, 0x02);
    mbc.write(0xA000, 0x22);
    mbc.write(0x4000, 0x00);
    assert_eq!(mbc.read(0xA000), 0x11);
    mbc.write(0x4000, 0x02);
    assert_eq!(mbc.read(0xA000), 0x22);
}

#[test]
fn returning_to_rom_mode_selects_ram_bank_zero() {
    let mut mbc = mbc1_full(0x03);
    mbc.write(0x0000, 0x0A);
    mbc.write(0x6000, 0x01);
    mbc.write(0x4000, 0x03);
    mbc.write(0xA000, 0x33);
    // Switching back to ROM banking mode forces RAM bank 0.
    mbc.write(0x6000, 0x00);
    mbc.write(0xA000, 0x44);
    mbc.write(0x6000, 0x01);
    mbc.write(0x4000, 0x03);
    assert_eq!(mbc.read(0xA000), 0x33);
    mbc.write(0x4000, 0x00);
    assert_eq!(mbc.read(0xA000), 0x44);
}

#[test]
fn absent_ram_reads_as_open_bus() {
    let mut mbc = mbc1_full(0);
    mbc.write(0x0000, 0x0A);
    mbc.write(0xA000, 0x12);
    assert_eq!(mbc.read(0xA000), 0xFF);
}

#[test]
fn small_ram_beyond_its_size_reads_as_open_bus() {
    // A 2 KiB RAM covers only the first 0x800 bytes of the window.
    let mut mbc = mbc1_full(0x01);
    mbc.write(0x0000, 0x0A);
    mbc.write(0xA7FF, 0x21);
    assert_eq!(mbc.read(0xA7FF), 0x21);
    mbc.write(0xA800, 0x43);
    assert_eq!(mbc.read(0xA800), 0xFF);
}

#[test]
fn save_round_trip_preserves_contents() {
    let mut ram = BankedRam::new(0x01, true);
    assert!(ram.is_battery_backed());
    ram.write(0, 0x10, 0xAB);
    let saved = ram.serialize();
    assert_eq!(saved.len(), 0x800);

    let mut restored = BankedRam::new(0x01, true);
    restored.load(&saved).unwrap();
    assert_eq!(restored.read(0, 0x10), 0xAB);
}

#[test]
fn save_of_wrong_length_is_rejected() {
    let mut ram = BankedRam::new(0x02, false);
    let saved = vec![0u8; 0x800];
    assert_eq!(ram.load(&saved).unwrap_err(), SaveError::SaveSizeMismatch);
    // The failed load left the RAM untouched.
    assert_eq!(ram.read(0, 0), 0x00);
    assert_eq!(ram.serialize().len(), 0x2000);
}
