//! The memory bank controller: a stateful address decoder on the
//! cartridge that maps CPU addresses into bank-relative storage accesses.
//!
//! Control writes that alias ordinary ROM addresses mutate the
//! controller's registers; reads and RAM-window accesses are routed to
//! the selected bank.  The controller kinds form a closed set: a
//! register-less kind that exposes banks 0 and 1 statically, and the
//! bank-switching MBC1.

use vstd::prelude::*;

use crate::storage::BankedRam;
use crate::storage::BankedRom;
use crate::storage::OPEN_BUS;
use crate::storage::ROM_BANK_SIZE;
use crate::storage::ram_read_spec;
use crate::storage::ram_write_spec;
use crate::storage::rom_read_spec;

verus! {

/// Constructing a controller fails when the cartridge-type byte names a
/// kind this implementation does not recognize.
#[derive(Debug, PartialEq, Eq, Structural, Clone, Copy)]
pub enum ControllerError {
    UnsupportedControllerKind,
}

/// What the shared 2-bit register at 0x4000-0x5FFF selects: the high
/// bits of the ROM bank, or the RAM bank.
#[derive(Debug, PartialEq, Eq, Structural, Clone, Copy)]
pub enum BankingMode {
    RomBanking,
    RamBanking,
}

/// Mathematical model of the MBC1 registers and storage.
pub struct Mbc1View {
    pub rom: Seq<u8>,
    pub ram: Seq<u8>,
    /// Low 5 bits of the ROM bank selector; a written 0 is stored as 1.
    pub rom_bank_low5: u8,
    /// High 2 bits of the ROM bank selector; active in ROM banking mode.
    pub rom_bank_high2: u8,
    pub ram_bank_selector: u8,
    pub ram_write_enabled: bool,
    pub banking_mode: BankingMode,
}

/// Register and storage invariant of MBC1: whole ROM banks, a
/// recognized RAM shape, field widths respected, the low field never 0,
/// and a zeroed high field while in RAM banking mode.
pub open spec fn mbc1_view_wf(v: Mbc1View) -> bool {
    &&& v.rom.len() as int % ROM_BANK_SIZE as int == 0
    &&& v.rom.len() > 0
    &&& (v.ram.len() == 0 || v.ram.len() == 0x800 || v.ram.len() == 0x2000 || v.ram.len()
        == 0x8000)
    &&& 1 <= v.rom_bank_low5 < 0x20
    &&& v.rom_bank_high2 < 4
    &&& v.ram_bank_selector < 4
    &&& (v.banking_mode == BankingMode::RamBanking ==> v.rom_bank_high2 == 0)
}

/// Remaps the four never-exposed physical ROM bank indices: 0x00, 0x20,
/// 0x40 and 0x60 each alias the next bank up.
pub open spec fn rom_bank_remap(raw: int) -> int {
    if raw % 0x20 == 0 {
        raw + 1
    } else {
        raw
    }
}

/// The raw assembled ROM bank selector, `(high2 << 5) | low5`, with the
/// high field forced to 0 while in RAM banking mode.
pub open spec fn assembled_rom_bank(v: Mbc1View) -> int {
    if v.banking_mode == BankingMode::RamBanking {
        v.rom_bank_low5 as int
    } else {
        v.rom_bank_high2 * 0x20 + v.rom_bank_low5
    }
}

/// The ROM bank exposed through the switchable window: the assembled
/// selector after alias remapping.  (Reduction modulo the present bank
/// count happens at the storage access.)
pub open spec fn effective_rom_bank(v: Mbc1View) -> int {
    rom_bank_remap(assembled_rom_bank(v))
}

/// The byte an MBC1 read yields, by address range: the low window is
/// always bank 0, the high window the effective bank, and the RAM
/// window the selected RAM bank.
pub open spec fn mbc1_read_spec(v: Mbc1View, address: u16) -> u8
    recommends
        address < 0x8000 || (0xA000 <= address < 0xC000),
{
    if address < 0x4000 {
        rom_read_spec(v.rom, 0, address as int)
    } else if address < 0x8000 {
        rom_read_spec(v.rom, effective_rom_bank(v), address - 0x4000)
    } else {
        ram_read_spec(v.ram, v.ram_bank_selector as int, address - 0xA000)
    }
}

/// The MBC1 state after a write, by address range:
/// 0x0000-0x1FFF gates RAM writes on a low nibble of 0xA;
/// 0x2000-0x3FFF sets the low 5 selector bits, a written 0 becoming 1;
/// 0x4000-0x5FFF sets the high 2 selector bits in ROM banking mode and
/// the RAM bank in RAM banking mode;
/// 0x6000-0x7FFF switches the mode on bit 0, zeroing the RAM bank on
/// entry to ROM banking and the high selector bits on entry to RAM
/// banking; and the RAM window stores through the write-enable latch,
/// discarding the write silently while the latch is off.
pub open spec fn mbc1_write_spec(v: Mbc1View, address: u16, value: u8) -> Mbc1View
    recommends
        address < 0x8000 || (0xA000 <= address < 0xC000),
{
    if address < 0x2000 {
        Mbc1View { ram_write_enabled: value & 0x0F == 0x0A, ..v }
    } else if address < 0x4000 {
        let low = value & 0x1F;
        Mbc1View { rom_bank_low5: if low == 0 { 1u8 } else { low }, ..v }
    } else if address < 0x6000 {
        if v.banking_mode == BankingMode::RomBanking {
            Mbc1View { rom_bank_high2: value & 0x03, ..v }
        } else {
            Mbc1View { ram_bank_selector: value & 0x03, ..v }
        }
    } else if address < 0x8000 {
        if value & 0x01 == 0 {
            Mbc1View { banking_mode: BankingMode::RomBanking, ram_bank_selector: 0, ..v }
        } else {
            Mbc1View { banking_mode: BankingMode::RamBanking, rom_bank_high2: 0, ..v }
        }
    } else {
        if v.ram_write_enabled {
            Mbc1View {
                ram: ram_write_spec(v.ram, v.ram_bank_selector as int, address - 0xA000, value),
                ..v
            }
        } else {
            v
        }
    }
}

/// The bank-switching controller MBC1.
///
/// The ROM bank selector is 7 usable bits, built from a 5-bit low field
/// and a 2-bit high field that is only active in ROM banking mode.
pub struct MBC1 {
    rom: BankedRom,
    ram: BankedRam,
    rom_bank_low5: u8,
    rom_bank_high2: u8,
    ram_bank_selector: u8,
    ram_write_enabled: bool,
    banking_mode: BankingMode,
}

impl View for MBC1 {
    type V = Mbc1View;

    closed spec fn view(&self) -> Mbc1View {
        Mbc1View {
            rom: self.rom@,
            ram: self.ram@,
            rom_bank_low5: self.rom_bank_low5,
            rom_bank_high2: self.rom_bank_high2,
            ram_bank_selector: self.ram_bank_selector,
            ram_write_enabled: self.ram_write_enabled,
            banking_mode: self.banking_mode,
        }
    }
}

impl MBC1 {
    /// Well-formedness of the controller: its view satisfies the
    /// register and storage invariant.
    pub open spec fn wf(&self) -> bool {
        mbc1_view_wf(self@)
    }

    /// A fresh controller: bank 1 selected (bank 0 cannot be mapped
    /// into the switchable window), RAM bank 0, writes disabled, ROM
    /// banking mode.
    pub fn new(rom: BankedRom, ram: BankedRam) -> (r: MBC1)
        requires
            rom.wf(),
            ram.wf(),
        ensures
            r.wf(),
            r@ == (Mbc1View {
                rom: rom@,
                ram: ram@,
                rom_bank_low5: 1u8,
                rom_bank_high2: 0u8,
                ram_bank_selector: 0u8,
                ram_write_enabled: false,
                banking_mode: BankingMode::RomBanking,
            }),
    {
        MBC1 {
            rom,
            ram,
            rom_bank_low5: 1,
            rom_bank_high2: 0,
            ram_bank_selector: 0,
            ram_write_enabled: false,
            banking_mode: BankingMode::RomBanking,
        }
    }

    /// Selects the assembled 7-bit ROM bank, storing its low and high
    /// fields; the never-exposed indices 0x00, 0x20, 0x40 and 0x60 are
    /// remapped to the next bank up before being stored.
    pub fn set_rom_bank(&mut self, bank: u8)
        requires
            bank < 0x80,
        ensures
            final(self)@ == (Mbc1View {
                rom_bank_low5: if bank & 0x1F == 0 { 1u8 } else { bank & 0x1F },
                rom_bank_high2: bank >> 5,
                ..old(self)@
            }),
    {
        let real_bank: u8 = if bank & 0x1F == 0 {
            bank + 1
        } else {
            bank
        };
        self.rom_bank_low5 = real_bank & 0x1F;
        self.rom_bank_high2 = real_bank >> 5;
        proof {
            assert(real_bank & 0x1F == (if bank & 0x1F == 0 { 1u8 } else { bank & 0x1F })
                && real_bank >> 5 == bank >> 5) by (bit_vector)
                requires
                    bank < 0x80,
                    real_bank == (if bank & 0x1F == 0 { ((bank + 1) as u8) } else { bank }),
            ;
        }
    }

    /// The ROM bank currently exposed through the switchable window.
    pub fn effective_rom_bank(&self) -> (r: usize)
        requires
            self.wf(),
        ensures
            r == effective_rom_bank(self@),
    {
        let assembled: usize = if self.banking_mode == BankingMode::RamBanking {
            self.rom_bank_low5 as usize
        } else {
            (self.rom_bank_high2 as usize) * 0x20 + self.rom_bank_low5 as usize
        };
        proof {
            assert(assembled % 0x20 == self.rom_bank_low5 as int) by (nonlinear_arith)
                requires
                    assembled == (if self@.banking_mode == BankingMode::RamBanking {
                        self@.rom_bank_low5 as int
                    } else {
                        self@.rom_bank_high2 * 0x20 + self@.rom_bank_low5
                    }),
                    0 <= self@.rom_bank_low5 < 0x20,
                    0 <= self@.rom_bank_high2 < 4,
            ;
        }
        assembled
    }

    /// Reads through the controller: low window, switchable window, or
    /// RAM window.
    pub fn read(&self, address: u16) -> (r: u8)
        requires
            self.wf(),
            address < 0x8000 || (0xA000 <= address < 0xC000),
        ensures
            r == mbc1_read_spec(self@, address),
    {
        if address < 0x4000 {
            self.rom.read(0, address as usize)
        } else if address < 0x8000 {
            let bank = self.effective_rom_bank();
            self.rom.read(bank, (address - 0x4000) as usize)
        } else {
            self.ram.read(self.ram_bank_selector as usize, (address - 0xA000) as usize)
        }
    }

    /// Writes through the controller: control registers below 0x8000,
    /// banked RAM through the write-enable latch in the RAM window.
    pub fn write(&mut self, address: u16, value: u8)
        requires
            old(self).wf(),
            address < 0x8000 || (0xA000 <= address < 0xC000),
        ensures
            final(self).wf(),
            final(self)@ == mbc1_write_spec(old(self)@, address, value),
    {
        if address < 0x2000 {
            self.ram_write_enabled = value & 0x0F == 0x0A;
        } else if address < 0x4000 {
            let requested = value & 0x1F;
            let high = self.rom_bank_high2;
            proof {
                assert(value & 0x1F < 0x20) by (bit_vector);
                assert(((high << 5) | (value & 0x1F)) < 0x80 && ((high << 5) | (value & 0x1F))
                    & 0x1F == value & 0x1F && ((high << 5) | (value & 0x1F)) >> 5 == high)
                    by (bit_vector)
                    requires
                        high < 4,
                ;
            }
            self.set_rom_bank((high << 5) | requested);
        } else if address < 0x6000 {
            let mask = value & 0x03;
            proof {
                assert(value & 0x03 < 4) by (bit_vector);
            }
            if self.banking_mode == BankingMode::RomBanking {
                self.rom_bank_high2 = mask;
            } else {
                self.ram_bank_selector = mask;
            }
        } else if address < 0x8000 {
            if value & 0x01 == 0 {
                self.banking_mode = BankingMode::RomBanking;
                self.ram_bank_selector = 0;
            } else {
                self.banking_mode = BankingMode::RamBanking;
                self.rom_bank_high2 = 0;
            }
        } else {
            if self.ram_write_enabled {
                let bank = self.ram_bank_selector;
                self.ram.write(bank as usize, (address - 0xA000) as usize, value);
            }
        }
    }
}

/// Mathematical model of a controller: the register-less kind, or MBC1.
pub enum MbcView {
    RomOnly { rom: Seq<u8> },
    Mbc1 { state: Mbc1View },
}

/// Well-formedness of a controller model.
pub open spec fn mbc_view_wf(v: MbcView) -> bool {
    match v {
        MbcView::RomOnly { rom } => rom.len() as int % ROM_BANK_SIZE as int == 0 && rom.len() > 0,
        MbcView::Mbc1 { state } => mbc1_view_wf(state),
    }
}

/// The byte a controller read yields.  The register-less kind exposes
/// bank 0 through the low window and bank 1 through the switchable
/// window, and has no RAM.
pub open spec fn mbc_read_spec(v: MbcView, address: u16) -> u8
    recommends
        address < 0x8000 || (0xA000 <= address < 0xC000),
{
    match v {
        MbcView::RomOnly { rom } => {
            if address < 0x4000 {
                rom_read_spec(rom, 0, address as int)
            } else if address < 0x8000 {
                rom_read_spec(rom, 1, address - 0x4000)
            } else {
                OPEN_BUS
            }
        },
        MbcView::Mbc1 { state } => mbc1_read_spec(state, address),
    }
}

/// The controller state after a write.  The register-less kind ignores
/// every write.
pub open spec fn mbc_write_spec(v: MbcView, address: u16, value: u8) -> MbcView
    recommends
        address < 0x8000 || (0xA000 <= address < 0xC000),
{
    match v {
        MbcView::RomOnly { .. } => v,
        MbcView::Mbc1 { state } => MbcView::Mbc1 { state: mbc1_write_spec(state, address, value) },
    }
}

/// A cartridge's memory bank controller: one of a closed set of kinds,
/// dispatched as a tagged variant.
pub enum MemoryBankController {
    /// No banking hardware: a plain 32 KiB cartridge, banks 0 and 1
    /// statically mapped.
    RomOnly(BankedRom),
    /// The bank-switching controller MBC1.
    Mbc1(MBC1),
}

impl View for MemoryBankController {
    type V = MbcView;

    closed spec fn view(&self) -> MbcView {
        match self {
            MemoryBankController::RomOnly(rom) => MbcView::RomOnly { rom: rom@ },
            MemoryBankController::Mbc1(m) => MbcView::Mbc1 { state: m@ },
        }
    }
}

impl MemoryBankController {
    /// Well-formedness of the controller.
    pub open spec fn wf(&self) -> bool {
        mbc_view_wf(self@)
    }

    /// Builds the controller a cartridge-type byte names, taking
    /// ownership of the image.  Type 0x00 is the register-less kind;
    /// 0x01 is MBC1 without RAM; 0x02 adds RAM of the declared size;
    /// 0x03 additionally declares battery backing.  Every other type
    /// byte is unsupported.
    pub fn new(image: Vec<u8>, cartridge_type: u8, ram_size_indicator: u8) -> (r: Result<
        MemoryBankController,
        ControllerError,
    >)
        requires
            image@.len() as int % ROM_BANK_SIZE as int == 0,
            image@.len() > 0,
        ensures
            cartridge_type > 3 ==> r == Result::<MemoryBankController, ControllerError>::Err(
                ControllerError::UnsupportedControllerKind,
            ),
            cartridge_type <= 3 ==> r is Ok && r.unwrap().wf(),
            cartridge_type == 0 ==> r.unwrap()@ == (MbcView::RomOnly { rom: image@ }),
            1 <= cartridge_type <= 3 ==> (r.unwrap()@ matches MbcView::Mbc1 { state } ==> {
                &&& state.rom == image@
                &&& state.rom_bank_low5 == 1
                &&& state.rom_bank_high2 == 0
                &&& state.ram_bank_selector == 0
                &&& !state.ram_write_enabled
                &&& state.banking_mode == BankingMode::RomBanking
                &&& state.ram.len() == (if cartridge_type == 1 {
                    0int
                } else {
                    crate::storage::ram_size_of_indicator(ram_size_indicator)
                })
                &&& state.ram =~= Seq::new(state.ram.len(), |i: int| 0u8)
            }),
            1 <= cartridge_type <= 3 ==> (r.unwrap()@ matches MbcView::Mbc1 { state }),
    {
        if cartridge_type == 0 {
            Ok(MemoryBankController::RomOnly(BankedRom::new(image)))
        } else if cartridge_type <= 3 {
            let rom = BankedRom::new(image);
            let ram = if cartridge_type == 1 {
                BankedRam::new(0, false)
            } else {
                BankedRam::new(ram_size_indicator, cartridge_type == 3)
            };
            Ok(MemoryBankController::Mbc1(MBC1::new(rom, ram)))
        } else {
            Err(ControllerError::UnsupportedControllerKind)
        }
    }

    /// Reads through the controller.
    pub fn read(&self, address: u16) -> (r: u8)
        requires
            self.wf(),
            address < 0x8000 || (0xA000 <= address < 0xC000),
        ensures
            r == mbc_read_spec(self@, address),
    {
        match self {
            MemoryBankController::RomOnly(rom) => {
                if address < 0x4000 {
                    rom.read(0, address as usize)
                } else if address < 0x8000 {
                    rom.read(1, (address - 0x4000) as usize)
                } else {
                    OPEN_BUS
                }
            },
            MemoryBankController::Mbc1(m) => m.read(address),
        }
    }

    /// Writes through the controller.
    pub fn write(&mut self, address: u16, value: u8)
        requires
            old(self).wf(),
            address < 0x8000 || (0xA000 <= address < 0xC000),
        ensures
            final(self).wf(),
            final(self)@ == mbc_write_spec(old(self)@, address, value),
    {
        match self {
            MemoryBankController::RomOnly(..) => {},
            MemoryBankController::Mbc1(m) => m.write(address, value),
        }
    }
}

/// Bank-aliasing law: in the raw assembled selector `(high2 << 5) | low5`,
/// a low field of 0 resolves to the next bank up (so raw 0x00, 0x20,
/// 0x40 and 0x60 resolve to 0x01, 0x21, 0x41 and 0x61), and every other
/// combination resolves to the assembled value itself.
pub proof fn lemma_rom_bank_aliasing(low5: int, high2: int)
    requires
        0 <= low5 < 0x20,
        0 <= high2 < 4,
    ensures
        low5 == 0 ==> rom_bank_remap(high2 * 0x20 + low5) == high2 * 0x20 + 1,
        high2 * 0x20 + low5 == 0x00 ==> rom_bank_remap(high2 * 0x20 + low5) == 0x01,
        high2 * 0x20 + low5 == 0x20 ==> rom_bank_remap(high2 * 0x20 + low5) == 0x21,
        high2 * 0x20 + low5 == 0x40 ==> rom_bank_remap(high2 * 0x20 + low5) == 0x41,
        high2 * 0x20 + low5 == 0x60 ==> rom_bank_remap(high2 * 0x20 + low5) == 0x61,
        low5 != 0 ==> rom_bank_remap(high2 * 0x20 + low5) == high2 * 0x20 + low5,
{
    assert((high2 * 0x20 + low5) % 0x20 == low5) by (nonlinear_arith)
        requires
            0 <= low5 < 0x20,
            0 <= high2 < 4,
    ;
}

/// Mode-toggle law: switching RomBanking -> RamBanking -> RomBanking
/// preserves the low 5 bits of the ROM bank selector and leaves the
/// high 2 bits zeroed, since those are only settable in ROM banking
/// mode and entering RAM banking mode forces them to 0.
pub proof fn lemma_mode_toggle_zeroes_high_bits(v: Mbc1View, a1: u16, a2: u16)
    requires
        v.banking_mode == BankingMode::RomBanking,
        0x6000 <= a1 < 0x8000,
        0x6000 <= a2 < 0x8000,
    ensures
        ({
            let toggled = mbc1_write_spec(mbc1_write_spec(v, a1, 1), a2, 0);
            &&& toggled.rom_bank_low5 == v.rom_bank_low5
            &&& toggled.rom_bank_high2 == 0
            &&& toggled.banking_mode == BankingMode::RomBanking
        }),
{
    assert(1u8 & 0x01 == 1 && 0u8 & 0x01 == 0) by (bit_vector);
}

/// Write-protection law: a control write whose low nibble is not 0xA to
/// 0x0000-0x1FFF disables RAM writes, and a subsequent write to the RAM
/// window then changes nothing at all - in particular the RAM contents
/// are untouched.
pub proof fn lemma_ram_disable_blocks_writes(v: Mbc1View, a1: u16, v1: u8, a2: u16, v2: u8)
    requires
        a1 < 0x2000,
        v1 & 0x0F != 0x0A,
        0xA000 <= a2 < 0xC000,
    ensures
        ({
            let disabled = mbc1_write_spec(v, a1, v1);
            &&& !disabled.ram_write_enabled
            &&& mbc1_write_spec(disabled, a2, v2) == disabled
            &&& mbc1_write_spec(disabled, a2, v2).ram == v.ram
        }),
{
}

/// The register-less controller ignores every write: control writes are
/// no-ops, and with no RAM the RAM window discards stores as well.
pub proof fn lemma_rom_only_ignores_writes(v: MbcView, address: u16, value: u8)
    requires
        v is RomOnly,
    ensures
        mbc_write_spec(v, address, value) == v,
{
}

/// On a two-bank cartridge with the register-less controller, the
/// switchable window always exposes bank 1: a read there yields the
/// image byte at the read address itself, whatever was written before.
pub proof fn lemma_rom_only_high_window_is_bank_one(rom: Seq<u8>, address: u16)
    requires
        rom.len() == 0x8000,
        0x4000 <= address < 0x8000,
    ensures
        mbc_read_spec(MbcView::RomOnly { rom }, address) == rom[address as int],
{
    assert(rom.len() as int / ROM_BANK_SIZE as int == 2);
    assert(mbc_read_spec(MbcView::RomOnly { rom }, address) == rom[(1int % 2int) * (
    ROM_BANK_SIZE as int) + (address - 0x4000)]);
}

} // verus!
