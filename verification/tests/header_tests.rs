use gbcart::checksum::{calculate_global_checksum, calculate_header_checksum};
use gbcart::header::{
    GameboyColorFlag, GameboyProgramMeta, GameboyRegionCode, MalformedHeader,
    SuperGameboyFeatureFlag, logo_reference,
};

/// A minimal 0x150-byte image: zeroed, with the reference logo in
/// place and the header checksum computed and declared.
fn base_image() -> Vec<u8> {
    let mut img = vec![0u8; 0x150];
    let logo = logo_reference();
    for (i, b) in logo.iter().enumerate() {
        img[0x104 + i] = *b;
    }
    declare_header_checksum(&mut img);
    img
}

/// Computes the header checksum independently of the library and
/// stores it at 0x14D.
fn declare_header_checksum(img: &mut [u8]) {
    let mut acc: u8 = 0;
    for i in 0x134..=0x14C {
        acc = acc.wrapping_sub(img[i]).wrapping_sub(1);
    }
    img[0x14D] = acc;
}

/// Computes the global checksum independently of the library and
/// stores it big-endian at 0x14E-0x14F.
fn declare_global_checksum(img: &mut [u8]) {
    let mut acc: u16 = 0;
    for i in 0..img.len() {
        if i != 0x14E && i != 0x14F {
            acc = acc.wrapping_add(img[i] as u16);
        }
    }
    img[0x14E] = (acc >> 8) as u8;
    img[0x14F] = (acc & 0xFF) as u8;
}


/// The error a parse is expected to produce.
fn parse_error(img: &Vec<u8>) -> MalformedHeader {
    match GameboyProgramMeta::new(img) {
        Err(e) => e,
        Ok(..) => panic!("expected header parsing to fail"),
    }
}

#[test]
fn header_checksum_of_zeroed_region_is_231() {
    // 25 bytes of zero: 0 - 25 * 1 = -25, which wraps to 231.
    let img = vec![0u8; 0x150];
    assert_eq!(calculate_header_checksum(&img), 231);
}

#[test]
fn header_checksum_of_known_title_vector() {
    // Title "ABC": 0 - (0x41+1) - (0x42+1) - (0x43+1) - 22 = -223 -> 33.
    let mut img = vec![0u8; 0x150];
    img[0x134] = 0x41;
    img[0x135] = 0x42;
    img[0x136] = 0x43;
    assert_eq!(calculate_header_checksum(&img), 33);
}

#[test]
fn global_checksum_skips_its_own_bytes() {
    let mut img = vec![0u8; 0x150];
    img[0] = 5;
    img[0x14E] = 0xAB;
    img[0x14F] = 0xCD;
    // The two declared-checksum bytes are excluded from the sum.
    assert_eq!(calculate_global_checksum(&img), 5);
}

#[test]
fn global_checksum_wraps_at_16_bits() {
    // 0x150 = 336 bytes of 0xFF, minus the two excluded bytes:
    // 334 * 255 = 85170 = 0x14CB2, which wraps to 0x4CB2.
    let img = vec![0xFFu8; 0x150];
    assert_eq!(calculate_global_checksum(&img), 0x4CB2);
}

#[test]
fn declared_global_checksum_is_read_big_endian() {
    let mut img = base_image();
    img[0x14E] = 0x12;
    img[0x14F] = 0x34;
    let meta = GameboyProgramMeta::new(&img).unwrap();
    assert_eq!(meta.global_checksum(), 0x1234);
}

#[test]
fn parsing_is_deterministic() {
    let mut img = base_image();
    img[0x134] = b'T';
    img[0x147] = 0x01;
    declare_header_checksum(&mut img);
    let a = GameboyProgramMeta::new(&img).unwrap();
    let b = GameboyProgramMeta::new(&img).unwrap();
    assert_eq!(a.name, b.name);
    assert_eq!(a.manufacturer_code, b.manufacturer_code);
    assert_eq!(a.licensee_code, b.licensee_code);
    assert_eq!(a.features_flag(), b.features_flag());
    assert_eq!(a.header_checksum_calculated(), b.header_checksum_calculated());
    assert_eq!(a.global_checksum_calculated(), b.global_checksum_calculated());
    assert_eq!(a.is_runable(), b.is_runable());
}

#[test]
fn too_short_image_is_rejected() {
    let img = vec![0u8; 0x14F];
    assert_eq!(parse_error(&img), MalformedHeader::InputTooShort);
}

#[test]
fn invalid_title_is_rejected() {
    let mut img = base_image();
    img[0x134] = 0xFF;
    declare_header_checksum(&mut img);
    assert_eq!(parse_error(&img), MalformedHeader::InvalidTitle);
}

#[test]
fn title_stops_at_first_null() {
    let mut img = base_image();
    for (i, b) in b"HELLO\0XYZ".iter().enumerate() {
        img[0x134 + i] = *b;
    }
    declare_header_checksum(&mut img);
    let meta = GameboyProgramMeta::new(&img).unwrap();
    assert_eq!(meta.name, b"HELLO".to_vec());
}

#[test]
fn multibyte_title_is_accepted() {
    let mut img = base_image();
    // "é" encodes as the two bytes 0xC3 0xA9.
    img[0x134] = 0xC3;
    img[0x135] = 0xA9;
    declare_header_checksum(&mut img);
    let meta = GameboyProgramMeta::new(&img).unwrap();
    assert_eq!(meta.name, vec![0xC3, 0xA9]);
}

#[test]
fn truncated_multibyte_title_is_rejected() {
    let mut img = base_image();
    // A two-byte leader with no continuation byte before the null.
    img[0x134] = 0xC3;
    img[0x135] = 0x00;
    declare_header_checksum(&mut img);
    assert_eq!(parse_error(&img), MalformedHeader::InvalidTitle);
}

#[test]
fn legacy_licensee_code_is_one_byte() {
    let mut img = base_image();
    img[0x14B] = 0x42;
    let meta = GameboyProgramMeta::new(&img).unwrap();
    assert_eq!(meta.licensee_code, vec![0x42]);
}

#[test]
fn modern_licensee_code_is_two_bytes() {
    let mut img = base_image();
    img[0x14B] = 0x33;
    img[0x144] = 0x30;
    img[0x145] = 0x31;
    let meta = GameboyProgramMeta::new(&img).unwrap();
    assert_eq!(meta.licensee_code, vec![0x30, 0x31]);
}

#[test]
fn flag_bytes_decode_to_their_variants() {
    let mut img = base_image();
    img[0x143] = 0x80;
    img[0x146] = 0x03;
    img[0x14A] = 0x01;
    declare_header_checksum(&mut img);
    let meta = GameboyProgramMeta::new(&img).unwrap();
    assert_eq!(meta.color_flag(), GameboyColorFlag::BackwardsCompatible);
    assert_eq!(
        meta.super_gameboy_flag(),
        SuperGameboyFeatureFlag::Supported
    );
    assert_eq!(meta.region_code(), GameboyRegionCode::NonJapan);

    let mut img2 = base_image();
    img2[0x143] = 0xC0;
    img2[0x14A] = 0x77;
    declare_header_checksum(&mut img2);
    let meta2 = GameboyProgramMeta::new(&img2).unwrap();
    assert_eq!(meta2.color_flag(), GameboyColorFlag::GBCOnly);
    assert_eq!(meta2.region_code(), GameboyRegionCode::Invalid(0x77));
}

#[test]
fn runnable_header_and_flipped_logo_byte() {
    // A header whose logo matches the reference bitmap and whose header
    // checksum is correctly computed is runnable.
    let mut img = base_image();
    declare_global_checksum(&mut img);
    let meta = GameboyProgramMeta::new(&img).unwrap();
    assert!(meta.is_valid_logo());
    assert!(meta.is_valid_header());
    assert!(meta.is_runable());
    assert!(meta.is_valid_program());

    // Flipping one logo byte breaks runnability; the logo region is
    // outside both checksum regions, so the global verdict is
    // unaffected.
    let mut flipped = img.clone();
    flipped[0x104] ^= 0xFF;
    declare_global_checksum(&mut flipped);
    let meta2 = GameboyProgramMeta::new(&flipped).unwrap();
    assert!(!meta2.is_valid_logo());
    assert!(meta2.is_valid_header());
    assert!(!meta2.is_runable());
    assert_eq!(meta2.is_valid_program(), meta.is_valid_program());
}

#[test]
fn logo_digest_matches_reference_exactly() {
    let img = base_image();
    let meta = GameboyProgramMeta::new(&img).unwrap();
    // The SHA-1 fingerprint check agrees with the byte-exact check.
    assert!(meta.is_valid_logo_digest());

    let mut flipped = img.clone();
    flipped[0x120] ^= 0x01;
    let meta2 = GameboyProgramMeta::new(&flipped).unwrap();
    assert!(!meta2.is_valid_logo_digest());
}

#[test]
fn global_checksum_verdict_is_advisory() {
    let mut img = base_image();
    // A wrong declared global checksum fails the program check but
    // never blocks runnability.
    img[0x14E] = 0xDE;
    img[0x14F] = 0xAD;
    let meta = GameboyProgramMeta::new(&img).unwrap();
    assert!(!meta.is_valid_program());
    assert!(meta.is_runable());
    let (logo_ok, header_ok, program_ok, runnable) = meta.verdicts();
    assert!(logo_ok);
    assert!(header_ok);
    assert!(!program_ok);
    assert!(runnable);
}
