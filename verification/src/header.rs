//! The cartridge header: fixed fields at offsets 0x100-0x14F of a ROM
//! image, parsed once and validated against the checks the boot
//! sequence performs.
//!
//! Computed values are pure functions of the raw bytes; declared and
//! computed values are compared, never reconciled.  Only the header
//! checksum and the logo gate real hardware boot; the global checksum
//! is advisory.

use vstd::prelude::*;
use vstd::utf8::valid_utf8;

use crate::checksum::calculate_global_checksum;
use crate::checksum::calculate_header_checksum;
use crate::checksum::global_checksum_spec;
use crate::checksum::header_checksum_spec;
use crate::text::lemma_until_null_prefix;
use crate::text::until_null;
use crate::text::validate_utf8;

verus! {

/// Minimum image length: the header extends through offset 0x14F.
pub const HEADER_MIN_LEN: usize = 0x150;

/// Header construction fails when the image is shorter than the header
/// extent, or when the title bytes before the first null are not valid
/// text.
#[derive(Debug, PartialEq, Eq, Structural, Clone, Copy)]
pub enum MalformedHeader {
    InputTooShort,
    InvalidTitle,
}

/// The destination-region byte at offset 0x14A.
#[derive(Debug, PartialEq, Eq, Structural, Clone, Copy)]
pub enum GameboyRegionCode {
    Japan,
    NonJapan,
    Invalid(u8),
}

/// The region code a raw byte decodes to: 0x00 is Japan, 0x01 is
/// non-Japan, anything else is invalid.
pub open spec fn region_code_of(byte: u8) -> GameboyRegionCode {
    if byte == 0x00 {
        GameboyRegionCode::Japan
    } else if byte == 0x01 {
        GameboyRegionCode::NonJapan
    } else {
        GameboyRegionCode::Invalid(byte)
    }
}

impl GameboyRegionCode {
    /// Decodes the destination-region byte.
    pub fn new(byte: u8) -> (r: GameboyRegionCode)
        ensures
            r == region_code_of(byte),
    {
        match byte {
            0x00 => GameboyRegionCode::Japan,
            0x01 => GameboyRegionCode::NonJapan,
            x => GameboyRegionCode::Invalid(x),
        }
    }
}

/// The color-support byte at offset 0x143.  On older cartridges this
/// byte is part of the title, which reads as `Undefined`.
#[derive(Debug, PartialEq, Eq, Structural, Clone, Copy)]
pub enum GameboyColorFlag {
    Undefined,
    BackwardsCompatible,
    GBCOnly,
    Invalid(u8),
}

/// The color-support flag a raw byte decodes to: 0x80 is
/// backwards-compatible, 0xC0 is color-only, 0x00 is undefined.
pub open spec fn color_flag_of(byte: u8) -> GameboyColorFlag {
    if byte == 0x00 {
        GameboyColorFlag::Undefined
    } else if byte == 0x80 {
        GameboyColorFlag::BackwardsCompatible
    } else if byte == 0xC0 {
        GameboyColorFlag::GBCOnly
    } else {
        GameboyColorFlag::Invalid(byte)
    }
}

impl GameboyColorFlag {
    /// Decodes the color-support byte.
    pub fn new(byte: u8) -> (r: GameboyColorFlag)
        ensures
            r == color_flag_of(byte),
    {
        match byte {
            0x00 => GameboyColorFlag::Undefined,
            0x80 => GameboyColorFlag::BackwardsCompatible,
            0xC0 => GameboyColorFlag::GBCOnly,
            x => GameboyColorFlag::Invalid(x),
        }
    }
}

/// The Super-console feature byte at offset 0x146.
#[derive(Debug, PartialEq, Eq, Structural, Clone, Copy)]
pub enum SuperGameboyFeatureFlag {
    Unsupported,
    Supported,
    Invalid(u8),
}

/// The Super-console feature flag a raw byte decodes to: 0x00 is
/// unsupported, 0x03 is supported.
pub open spec fn super_gameboy_flag_of(byte: u8) -> SuperGameboyFeatureFlag {
    if byte == 0x00 {
        SuperGameboyFeatureFlag::Unsupported
    } else if byte == 0x03 {
        SuperGameboyFeatureFlag::Supported
    } else {
        SuperGameboyFeatureFlag::Invalid(byte)
    }
}

impl SuperGameboyFeatureFlag {
    /// Decodes the Super-console feature byte.
    pub fn new(byte: u8) -> (r: SuperGameboyFeatureFlag)
        ensures
            r == super_gameboy_flag_of(byte),
    {
        match byte {
            0x00 => SuperGameboyFeatureFlag::Unsupported,
            0x03 => SuperGameboyFeatureFlag::Supported,
            x => SuperGameboyFeatureFlag::Invalid(x),
        }
    }
}

/// The fixed 48-byte reference logo bitmap that every bootable
/// cartridge carries at offsets 0x104-0x133.
pub open spec fn logo_bitmap() -> Seq<u8> {
    seq![
        0xCEu8, 0xEDu8, 0x66u8, 0x66u8, 0xCCu8, 0x0Du8, 0x00u8, 0x0Bu8,
        0x03u8, 0x73u8, 0x00u8, 0x83u8, 0x00u8, 0x0Cu8, 0x00u8, 0x0Du8,
        0x00u8, 0x08u8, 0x11u8, 0x1Fu8, 0x88u8, 0x89u8, 0x00u8, 0x0Eu8,
        0xDCu8, 0xCCu8, 0x6Eu8, 0xE6u8, 0xDDu8, 0xDDu8, 0xD9u8, 0x99u8,
        0xBBu8, 0xBBu8, 0x67u8, 0x63u8, 0x6Eu8, 0x0Eu8, 0xECu8, 0xCCu8,
        0xDDu8, 0xDCu8, 0x99u8, 0x9Fu8, 0xBBu8, 0xB9u8, 0x33u8, 0x3Eu8,
    ]
}

/// The reference logo bitmap as bytes.
pub fn logo_reference() -> (r: Vec<u8>)
    ensures
        r@ == logo_bitmap(),
{
    let mut r: Vec<u8> = Vec::new();
    r.push(0xCE);
    r.push(0xED);
    r.push(0x66);
    r.push(0x66);
    r.push(0xCC);
    r.push(0x0D);
    r.push(0x00);
    r.push(0x0B);
    r.push(0x03);
    r.push(0x73);
    r.push(0x00);
    r.push(0x83);
    r.push(0x00);
    r.push(0x0C);
    r.push(0x00);
    r.push(0x0D);
    r.push(0x00);
    r.push(0x08);
    r.push(0x11);
    r.push(0x1F);
    r.push(0x88);
    r.push(0x89);
    r.push(0x00);
    r.push(0x0E);
    r.push(0xDC);
    r.push(0xCC);
    r.push(0x6E);
    r.push(0xE6);
    r.push(0xDD);
    r.push(0xDD);
    r.push(0xD9);
    r.push(0x99);
    r.push(0xBB);
    r.push(0xBB);
    r.push(0x67);
    r.push(0x63);
    r.push(0x6E);
    r.push(0x0E);
    r.push(0xEC);
    r.push(0xCC);
    r.push(0xDD);
    r.push(0xDC);
    r.push(0x99);
    r.push(0x9F);
    r.push(0xBB);
    r.push(0xB9);
    r.push(0x33);
    r.push(0x3E);
    proof {
        assert(r@ =~= logo_bitmap());
    }
    r
}

/// The known SHA-1 digest of the reference logo bitmap.
pub open spec fn logo_hash() -> Seq<u8> {
    seq![
        0x07u8, 0x45u8, 0xFDu8, 0xEFu8, 0x34u8, 0x13u8, 0x2Du8, 0x1Bu8,
        0x3Du8, 0x48u8, 0x8Cu8, 0xFBu8, 0xDFu8, 0x03u8, 0x79u8, 0xA3u8,
        0x9Fu8, 0xD5u8, 0x4Bu8, 0x4Cu8,
    ]
}

/// The known SHA-1 digest of the reference logo bitmap, as bytes.
pub fn logo_hash_reference() -> (r: Vec<u8>)
    ensures
        r@ == logo_hash(),
{
    let mut r: Vec<u8> = Vec::new();
    r.push(0x07);
    r.push(0x45);
    r.push(0xFD);
    r.push(0xEF);
    r.push(0x34);
    r.push(0x13);
    r.push(0x2D);
    r.push(0x1B);
    r.push(0x3D);
    r.push(0x48);
    r.push(0x8C);
    r.push(0xFB);
    r.push(0xDF);
    r.push(0x03);
    r.push(0x79);
    r.push(0xA3);
    r.push(0x9F);
    r.push(0xD5);
    r.push(0x4B);
    r.push(0x4C);
    proof {
        assert(r@ =~= logo_hash());
    }
    r
}

/// The SHA-1 digest of a byte sequence, as the sha1 crate computes it.
pub uninterp spec fn sha1_of(bytes: Seq<u8>) -> Seq<u8>;

/// Relies on the sha1 crate's `Sha1`: the 20-byte SHA-1 digest of the
/// input, a pure function of the input bytes alone.
#[verifier::external_body]
fn sha1_digest(bytes: &Vec<u8>) -> (r: Vec<u8>)
    ensures
        r@ == sha1_of(bytes@),
        r@.len() == 20,
{
    let digest = <sha1::Sha1 as sha1::Digest>::digest(bytes.as_slice());
    digest.to_vec()
}

/// Relies on itertools::equal: true exactly when the two byte vectors
/// yield equal elements in order and have equal length.
#[verifier::external_body]
fn bytes_equal(a: &Vec<u8>, b: &Vec<u8>) -> (r: bool)
    ensures
        r == (a@ == b@),
{
    itertools::equal(a.iter(), b.iter())
}

/// Relies on byteorder's `BigEndian::read_u16`: the big-endian 16-bit
/// integer held in the two bytes at `at`.
#[verifier::external_body]
fn read_u16_be(buf: &Vec<u8>, at: usize) -> (r: u16)
    requires
        at + 2 <= buf@.len(),
    ensures
        r == buf@[at as int] * 256 + buf@[at as int + 1],
{
    <byteorder::BigEndian as byteorder::ByteOrder>::read_u16(&buf[at..])
}

/// The title region of an image: offsets 0x134-0x142.
pub open spec fn title_region(bytes: Seq<u8>) -> Seq<u8>
    recommends
        bytes.len() >= HEADER_MIN_LEN,
{
    bytes.subrange(0x134, 0x143)
}

/// The title of an image: the title region up to its first null.
pub open spec fn title_of(bytes: Seq<u8>) -> Seq<u8>
    recommends
        bytes.len() >= HEADER_MIN_LEN,
{
    until_null(title_region(bytes))
}

/// The licensee code of an image: the modern two-byte form at
/// 0x144-0x145 when the legacy byte at 0x14B holds the sentinel 0x33,
/// otherwise the legacy byte itself.
pub open spec fn licensee_code_of(bytes: Seq<u8>) -> Seq<u8>
    recommends
        bytes.len() >= HEADER_MIN_LEN,
{
    if bytes[0x14B] == 0x33 {
        seq![bytes[0x144], bytes[0x145]]
    } else {
        seq![bytes[0x14B]]
    }
}

/// Mathematical model of a parsed header.
pub struct HeaderView {
    pub name: Seq<u8>,
    pub manufacturer_code: Seq<u8>,
    pub licensee_code: Seq<u8>,
    pub color_flag: GameboyColorFlag,
    pub super_gameboy_flag: SuperGameboyFeatureFlag,
    pub features_flag: u8,
    pub cartridge_size_indicator: u8,
    pub ram_size_indicator: u8,
    pub region_code: GameboyRegionCode,
    pub program_version_number: u8,
    pub header_checksum: u8,
    pub global_checksum: u16,
    pub header_checksum_calculated: u8,
    pub global_checksum_calculated: u16,
    pub logo_bitmap: Seq<u8>,
    pub program_size: nat,
}

/// The header a well-formed image parses to: every field is a pure
/// function of the image bytes.
pub open spec fn parse_header(bytes: Seq<u8>) -> HeaderView
    recommends
        bytes.len() >= HEADER_MIN_LEN,
{
    HeaderView {
        name: title_of(bytes),
        manufacturer_code: bytes.subrange(0x13F, 0x143),
        licensee_code: licensee_code_of(bytes),
        color_flag: color_flag_of(bytes[0x143]),
        super_gameboy_flag: super_gameboy_flag_of(bytes[0x146]),
        features_flag: bytes[0x147],
        cartridge_size_indicator: bytes[0x148],
        ram_size_indicator: bytes[0x149],
        region_code: region_code_of(bytes[0x14A]),
        program_version_number: bytes[0x14C],
        header_checksum: bytes[0x14D],
        global_checksum: (bytes[0x14E] * 256 + bytes[0x14F]) as u16,
        header_checksum_calculated: header_checksum_spec(bytes),
        global_checksum_calculated: global_checksum_spec(bytes),
        logo_bitmap: bytes.subrange(0x104, 0x134),
        program_size: bytes.len(),
    }
}

/// What parsing an image yields: the parsed header, or the error that
/// rejects it - too short, or a title that is not valid text.
pub open spec fn parse_result(bytes: Seq<u8>) -> Result<HeaderView, MalformedHeader> {
    if bytes.len() < HEADER_MIN_LEN {
        Err(MalformedHeader::InputTooShort)
    } else if !valid_utf8(title_of(bytes)) {
        Err(MalformedHeader::InvalidTitle)
    } else {
        Ok(parse_header(bytes))
    }
}

/// Determinism law: header parsing is deterministic and side-effect
/// free.  The parse result is a pure function of the image bytes alone
/// (and `GameboyProgramMeta::new` borrows its input immutably, so no
/// state is touched).
pub proof fn lemma_parse_deterministic(b1: Seq<u8>, b2: Seq<u8>)
    requires
        b1 == b2,
    ensures
        parse_result(b1) == parse_result(b2),
{
}

/// Extracts the zero-terminated text at the start of a buffer: the
/// bytes before the first null, which must be valid UTF-8.
pub fn bufstr(buf: &Vec<u8>) -> (r: Result<Vec<u8>, MalformedHeader>)
    ensures
        r is Ok <==> valid_utf8(until_null(buf@)),
        r is Ok ==> r.unwrap()@ == until_null(buf@),
        r is Err ==> r == Result::<Vec<u8>, MalformedHeader>::Err(MalformedHeader::InvalidTitle),
{
    let n = buf.len();
    let mut title: Vec<u8> = Vec::new();
    let mut i: usize = 0;
    while i < n && buf[i] != 0
        invariant
            i <= n,
            n == buf@.len(),
            title@ == buf@.subrange(0, i as int),
            forall|j: int| 0 <= j < i ==> buf@[j] != 0,
        decreases n - i,
    {
        title.push(buf[i]);
        proof {
            assert(title@ =~= buf@.subrange(0, i + 1));
        }
        i = i + 1;
    }
    proof {
        lemma_until_null_prefix(buf@, i as int);
    }
    if validate_utf8(&title) {
        Ok(title)
    } else {
        Err(MalformedHeader::InvalidTitle)
    }
}

/// A parsed cartridge header.
///
/// On newer cartridges the name is clamped and the freed space holds
/// the manufacturer code; newer cartridges also move the licensee code
/// to its two-byte form.  Declared and computed checksums are kept side
/// by side and compared, never reconciled.
pub struct GameboyProgramMeta {
    pub name: Vec<u8>,
    pub manufacturer_code: Vec<u8>,
    pub licensee_code: Vec<u8>,
    color_flag: GameboyColorFlag,
    super_gameboy_flag: SuperGameboyFeatureFlag,
    features_flag: u8,
    cartridge_size_indicator: u8,
    ram_size_indicator: u8,
    region_code: GameboyRegionCode,
    program_version_number: u8,
    header_checksum: u8,
    global_checksum: u16,
    header_checksum_calculated: u8,
    global_checksum_calculated: u16,
    logo_bitmap: Vec<u8>,
    pub program_size: usize,
}

impl View for GameboyProgramMeta {
    type V = HeaderView;

    closed spec fn view(&self) -> HeaderView {
        HeaderView {
            name: self.name@,
            manufacturer_code: self.manufacturer_code@,
            licensee_code: self.licensee_code@,
            color_flag: self.color_flag,
            super_gameboy_flag: self.super_gameboy_flag,
            features_flag: self.features_flag,
            cartridge_size_indicator: self.cartridge_size_indicator,
            ram_size_indicator: self.ram_size_indicator,
            region_code: self.region_code,
            program_version_number: self.program_version_number,
            header_checksum: self.header_checksum,
            global_checksum: self.global_checksum,
            header_checksum_calculated: self.header_checksum_calculated,
            global_checksum_calculated: self.global_checksum_calculated,
            logo_bitmap: self.logo_bitmap@,
            program_size: self.program_size as nat,
        }
    }
}

/// Copies `buf[from..to]` into a fresh vector.
fn copy_range(buf: &Vec<u8>, from: usize, to: usize) -> (r: Vec<u8>)
    requires
        from <= to <= buf@.len(),
    ensures
        r@ == buf@.subrange(from as int, to as int),
{
    let mut r: Vec<u8> = Vec::new();
    let mut i: usize = from;
    while i < to
        invariant
            from <= i <= to <= buf@.len(),
            r@ == buf@.subrange(from as int, i as int),
        decreases to - i,
    {
        r.push(buf[i]);
        proof {
            assert(r@ =~= buf@.subrange(from as int, i + 1));
        }
        i = i + 1;
    }
    r
}

impl GameboyProgramMeta {
    /// Parses the header of an image.  Fails when the image is shorter
    /// than 0x150 bytes, or when the title bytes before the first null
    /// are not valid text.
    pub fn new(program: &Vec<u8>) -> (r: Result<GameboyProgramMeta, MalformedHeader>)
        ensures
            (match r {
                Ok(h) => parse_result(program@) == Result::<HeaderView, MalformedHeader>::Ok(h@),
                Err(e) => parse_result(program@) == Result::<HeaderView, MalformedHeader>::Err(e),
            }),
            r is Ok <==> parse_result(program@) is Ok,
    {
        if program.len() < HEADER_MIN_LEN {
            return Err(MalformedHeader::InputTooShort);
        }
        let title_bytes = copy_range(program, 0x134, 0x143);
        let name = match bufstr(&title_bytes) {
            Ok(t) => t,
            Err(e) => {
                return Err(e);
            },
        };

        // Older cartridges keep a one-byte licensee code at 0x14B; newer
        // ones set it to the sentinel 0x33 and use two bytes at 0x144.
        let mut licensee_code: Vec<u8> = Vec::new();
        if program[0x14B] == 0x33 {
            licensee_code.push(program[0x144]);
            licensee_code.push(program[0x145]);
            proof {
                assert(licensee_code@ =~= licensee_code_of(program@));
            }
        } else {
            licensee_code.push(program[0x14B]);
            proof {
                assert(licensee_code@ =~= licensee_code_of(program@));
            }
        }

        let meta = GameboyProgramMeta {
            name,
            manufacturer_code: copy_range(program, 0x13F, 0x143),
            licensee_code,
            color_flag: GameboyColorFlag::new(program[0x143]),
            super_gameboy_flag: SuperGameboyFeatureFlag::new(program[0x146]),
            features_flag: program[0x147],
            cartridge_size_indicator: program[0x148],
            ram_size_indicator: program[0x149],
            region_code: GameboyRegionCode::new(program[0x14A]),
            program_version_number: program[0x14C],
            header_checksum: program[0x14D],
            global_checksum: read_u16_be(program, 0x14E),
            header_checksum_calculated: calculate_header_checksum(program),
            global_checksum_calculated: calculate_global_checksum(program),
            logo_bitmap: copy_range(program, 0x104, 0x134),
            program_size: program.len(),
        };
        Ok(meta)
    }

    /// Whether the stored logo bytes equal the reference bitmap,
    /// byte for byte.  Real hardware halts boot when they differ.
    pub fn is_valid_logo(&self) -> (r: bool)
        ensures
            r == (self@.logo_bitmap == logo_bitmap()),
    {
        let reference = logo_reference();
        bytes_equal(&self.logo_bitmap, &reference)
    }

    /// Whether the SHA-1 digest of the stored logo bytes equals the
    /// known digest of the reference bitmap.
    pub fn is_valid_logo_digest(&self) -> (r: bool)
        ensures
            r == (sha1_of(self@.logo_bitmap) == logo_hash()),
    {
        let digest = sha1_digest(&self.logo_bitmap);
        digest_matches_logo_hash(&digest)
    }

    /// Whether the declared header checksum matches the computed one.
    /// Real hardware halts boot when they differ.
    pub fn is_valid_header(&self) -> (r: bool)
        ensures
            r == (self@.header_checksum == self@.header_checksum_calculated),
    {
        self.header_checksum == self.header_checksum_calculated
    }

    /// Whether the declared global checksum matches the computed one.
    /// A mismatch never blocks execution: the verdict is advisory.
    pub fn is_valid_program(&self) -> (r: bool)
        ensures
            r == (self@.global_checksum == self@.global_checksum_calculated),
    {
        self.global_checksum == self.global_checksum_calculated
    }

    /// Whether the cartridge would boot on real hardware: a valid
    /// header checksum and a valid logo.  The global checksum is
    /// ignored by the boot sequence.
    pub fn is_runable(&self) -> (r: bool)
        ensures
            r == (self@.header_checksum == self@.header_checksum_calculated && self@.logo_bitmap
                == logo_bitmap()),
    {
        self.is_valid_header() && self.is_valid_logo()
    }

    /// The four independent verdicts a debug report renders: logo,
    /// header checksum, global checksum, and overall runnability.
    pub fn verdicts(&self) -> (r: (bool, bool, bool, bool))
        ensures
            r.0 == (self@.logo_bitmap == logo_bitmap()),
            r.1 == (self@.header_checksum == self@.header_checksum_calculated),
            r.2 == (self@.global_checksum == self@.global_checksum_calculated),
            r.3 == (self@.header_checksum == self@.header_checksum_calculated && self@.logo_bitmap
                == logo_bitmap()),
    {
        (self.is_valid_logo(), self.is_valid_header(), self.is_valid_program(), self.is_runable())
    }

    /// The color-support flag.
    pub fn color_flag(&self) -> (r: GameboyColorFlag)
        ensures
            r == self@.color_flag,
    {
        self.color_flag
    }

    /// The Super-console feature flag.
    pub fn super_gameboy_flag(&self) -> (r: SuperGameboyFeatureFlag)
        ensures
            r == self@.super_gameboy_flag,
    {
        self.super_gameboy_flag
    }

    /// The raw cartridge-type byte at 0x147, naming the controller and
    /// extra hardware on the cartridge.
    pub fn features_flag(&self) -> (r: u8)
        ensures
            r == self@.features_flag,
    {
        self.features_flag
    }

    /// The ROM-size indicator byte at 0x148.
    pub fn cartridge_size_indicator(&self) -> (r: u8)
        ensures
            r == self@.cartridge_size_indicator,
    {
        self.cartridge_size_indicator
    }

    /// The RAM-size indicator byte at 0x149.
    pub fn ram_size_indicator(&self) -> (r: u8)
        ensures
            r == self@.ram_size_indicator,
    {
        self.ram_size_indicator
    }

    /// The destination-region code.
    pub fn region_code(&self) -> (r: GameboyRegionCode)
        ensures
            r == self@.region_code,
    {
        self.region_code
    }

    /// The mask-ROM version byte at 0x14C.
    pub fn program_version_number(&self) -> (r: u8)
        ensures
            r == self@.program_version_number,
    {
        self.program_version_number
    }

    /// The declared header checksum byte at 0x14D.
    pub fn header_checksum(&self) -> (r: u8)
        ensures
            r == self@.header_checksum,
    {
        self.header_checksum
    }

    /// The declared global checksum, read big-endian from 0x14E-0x14F.
    pub fn global_checksum(&self) -> (r: u16)
        ensures
            r == self@.global_checksum,
    {
        self.global_checksum
    }

    /// The header checksum computed from the image.
    pub fn header_checksum_calculated(&self) -> (r: u8)
        ensures
            r == self@.header_checksum_calculated,
    {
        self.header_checksum_calculated
    }

    /// The global checksum computed from the image.
    pub fn global_checksum_calculated(&self) -> (r: u16)
        ensures
            r == self@.global_checksum_calculated,
    {
        self.global_checksum_calculated
    }

    /// The stored logo bytes.
    pub fn logo_bytes(&self) -> (r: &Vec<u8>)
        ensures
            r@ == self@.logo_bitmap,
    {
        &self.logo_bitmap
    }
}

/// Whether a digest equals the known SHA-1 digest of the reference
/// logo bitmap.
pub fn digest_matches_logo_hash(digest: &Vec<u8>) -> (r: bool)
    ensures
        r == (digest@ == logo_hash()),
{
    let reference = logo_hash_reference();
    bytes_equal(digest, &reference)
}

} // verus!
