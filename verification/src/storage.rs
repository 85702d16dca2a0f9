//! Bank-indexed storage owned by the cartridge: ROM banks sized to the
//! loaded image, and optional external RAM.
//!
//! Banks live in one owned buffer; a bank index and an offset are turned
//! into a buffer position with bounds-checked arithmetic.  Bank indices
//! beyond the physically present count wrap around (modulo the count)
//! rather than fault.

use vstd::prelude::*;

verus! {

/// Size in bytes of one ROM bank.
pub const ROM_BANK_SIZE: usize = 0x4000;

/// Size in bytes of the CPU-visible external-RAM window (0xA000-0xBFFF).
pub const RAM_WINDOW_SIZE: usize = 0x2000;

/// Value read from locations with no backing storage (open bus).
pub const OPEN_BUS: u8 = 0xFF;

/// Loading persisted save data fails when its length disagrees with the
/// RAM size the cartridge declares.
#[derive(Debug, PartialEq, Eq, Structural, Clone, Copy)]
pub enum SaveError {
    SaveSizeMismatch,
}

/// Cartridge ROM: an ordered sequence of fixed 16 KiB banks, sized
/// exactly to the loaded image.
pub struct BankedRom {
    data: Vec<u8>,
}

impl View for BankedRom {
    type V = Seq<u8>;

    closed spec fn view(&self) -> Seq<u8> {
        self.data@
    }
}

/// The byte a ROM read yields: the bank index wraps modulo the bank
/// count, and the offset picks a byte inside the selected bank.
pub open spec fn rom_read_spec(rom: Seq<u8>, bank: int, offset: int) -> u8
    recommends
        rom.len() as int % ROM_BANK_SIZE as int == 0,
        rom.len() > 0,
        0 <= offset < ROM_BANK_SIZE,
{
    rom[(bank % (rom.len() as int / ROM_BANK_SIZE as int)) * (ROM_BANK_SIZE as int) + offset]
}

impl BankedRom {
    /// A well-formed ROM holds a whole, positive number of banks.
    pub open spec fn wf(&self) -> bool {
        &&& self@.len() as int % ROM_BANK_SIZE as int == 0
        &&& self@.len() > 0
    }

    /// Number of 16 KiB banks in the image.
    pub open spec fn spec_bank_count(&self) -> int {
        self@.len() as int / ROM_BANK_SIZE as int
    }

    /// Takes ownership of a loaded image.  The image must consist of
    /// whole banks; bank 0 is always present.
    pub fn new(image: Vec<u8>) -> (r: BankedRom)
        requires
            image@.len() as int % ROM_BANK_SIZE as int == 0,
            image@.len() > 0,
        ensures
            r.wf(),
            r@ == image@,
    {
        BankedRom { data: image }
    }

    /// Number of banks actually present.
    pub fn bank_count(&self) -> (r: usize)
        requires
            self.wf(),
        ensures
            r == self.spec_bank_count(),
            r >= 1,
    {
        self.data.len() / ROM_BANK_SIZE
    }

    /// Reads one byte of the given bank; out-of-range bank indices wrap
    /// modulo the bank count.
    pub fn read(&self, bank: usize, offset: usize) -> (r: u8)
        requires
            self.wf(),
            offset < ROM_BANK_SIZE,
        ensures
            r == rom_read_spec(self@, bank as int, offset as int),
    {
        let count = self.bank_count();
        let b = bank % count;
        let total = self.data.len();
        proof {
            assert(b * (ROM_BANK_SIZE as int) + offset < total) by (nonlinear_arith)
                requires
                    b < count,
                    count * (ROM_BANK_SIZE as int) == total,
                    offset < ROM_BANK_SIZE,
            ;
        }
        self.data[b * ROM_BANK_SIZE + offset]
    }
}

/// The RAM size in bytes that a header's RAM-size indicator declares:
/// none, one 2 KiB bank, one 8 KiB bank, or four 8 KiB banks.  An
/// unrecognized indicator declares no RAM.
pub open spec fn ram_size_of_indicator(indicator: u8) -> int {
    if indicator == 1 {
        0x800
    } else if indicator == 2 {
        0x2000
    } else if indicator == 3 {
        0x8000
    } else {
        0
    }
}

/// Size in bytes of one bank of a RAM of total size `len`: a 2 KiB RAM
/// is one 2 KiB bank; larger RAMs are split into 8 KiB banks.
pub open spec fn ram_bank_size_of(len: int) -> int {
    if len == 0x800 {
        0x800
    } else {
        0x2000
    }
}

/// The byte a RAM read yields.  Absent RAM and offsets beyond the bank
/// size read as open bus; the bank index wraps modulo the bank count.
pub open spec fn ram_read_spec(ram: Seq<u8>, bank: int, offset: int) -> u8
    recommends
        0 <= offset < RAM_WINDOW_SIZE,
{
    let bank_size = ram_bank_size_of(ram.len() as int);
    if ram.len() == 0 || offset >= bank_size {
        OPEN_BUS
    } else {
        ram[(bank % (ram.len() as int / bank_size)) * bank_size + offset]
    }
}

/// The RAM contents after a write.  Writes to absent RAM and to offsets
/// beyond the bank size are silently discarded; the bank index wraps
/// modulo the bank count.
pub open spec fn ram_write_spec(ram: Seq<u8>, bank: int, offset: int, value: u8) -> Seq<u8>
    recommends
        0 <= offset < RAM_WINDOW_SIZE,
{
    let bank_size = ram_bank_size_of(ram.len() as int);
    if ram.len() == 0 || offset >= bank_size {
        ram
    } else {
        ram.update((bank % (ram.len() as int / bank_size)) * bank_size + offset, value)
    }
}

/// External cartridge RAM: zero or more fixed-size banks, present only
/// when the header declares them; persisted only when the cartridge
/// additionally declares battery backing.
pub struct BankedRam {
    data: Vec<u8>,
    battery_backed: bool,
}

impl View for BankedRam {
    type V = Seq<u8>;

    closed spec fn view(&self) -> Seq<u8> {
        self.data@
    }
}

impl BankedRam {
    /// A well-formed RAM is absent, one 2 KiB bank, one 8 KiB bank, or
    /// four 8 KiB banks.
    pub open spec fn wf(&self) -> bool {
        ||| self@.len() == 0
        ||| self@.len() == 0x800
        ||| self@.len() == 0x2000
        ||| self@.len() == 0x8000
    }

    /// Whether the contents are meant to survive power-off.
    pub closed spec fn spec_battery_backed(&self) -> bool {
        self.battery_backed
    }

    /// Allocates zeroed RAM of the size the header's indicator declares.
    pub fn new(ram_size_indicator: u8, battery_backed: bool) -> (r: BankedRam)
        ensures
            r.wf(),
            r@.len() == ram_size_of_indicator(ram_size_indicator),
            r@ == Seq::new(ram_size_of_indicator(ram_size_indicator) as nat, |i: int| 0u8),
            r.spec_battery_backed() == battery_backed,
    {
        let size: usize = if ram_size_indicator == 1 {
            0x800
        } else if ram_size_indicator == 2 {
            0x2000
        } else if ram_size_indicator == 3 {
            0x8000
        } else {
            0
        };
        let mut data: Vec<u8> = Vec::new();
        while data.len() < size
            invariant
                data@.len() <= size,
                forall|i: int| 0 <= i < data@.len() ==> data@[i] == 0u8,
            decreases size - data@.len(),
        {
            data.push(0);
        }
        proof {
            assert(data@ =~= Seq::new(size as nat, |i: int| 0u8));
        }
        BankedRam { data, battery_backed }
    }

    /// Total bytes present.
    pub fn size(&self) -> (r: usize)
        ensures
            r == self@.len(),
    {
        self.data.len()
    }

    /// Whether the contents are meant to survive power-off.
    pub fn is_battery_backed(&self) -> (r: bool)
        ensures
            r == self.spec_battery_backed(),
    {
        self.battery_backed
    }

    /// Reads one byte of the given bank through the 8 KiB RAM window.
    /// Absent RAM and offsets beyond the bank size read as open bus.
    pub fn read(&self, bank: usize, offset: usize) -> (r: u8)
        requires
            self.wf(),
            offset < RAM_WINDOW_SIZE,
        ensures
            r == ram_read_spec(self@, bank as int, offset as int),
    {
        let len = self.data.len();
        let bank_size: usize = if len == 0x800 {
            0x800
        } else {
            0x2000
        };
        if len == 0 || offset >= bank_size {
            OPEN_BUS
        } else {
            let b = bank % (len / bank_size);
            proof {
                assert(b * bank_size + offset < len) by (nonlinear_arith)
                    requires
                        b < len / bank_size,
                        len % bank_size == 0,
                        offset < bank_size,
                        bank_size > 0,
                ;
            }
            self.data[b * bank_size + offset]
        }
    }

    /// Writes one byte of the given bank through the 8 KiB RAM window.
    /// Writes to absent RAM and beyond the bank size are discarded.
    pub fn write(&mut self, bank: usize, offset: usize, value: u8)
        requires
            old(self).wf(),
            offset < RAM_WINDOW_SIZE,
        ensures
            final(self)@ == ram_write_spec(old(self)@, bank as int, offset as int, value),
            final(self).wf(),
            final(self).spec_battery_backed() == old(self).spec_battery_backed(),
    {
        let len = self.data.len();
        let bank_size: usize = if len == 0x800 {
            0x800
        } else {
            0x2000
        };
        if !(len == 0 || offset >= bank_size) {
            let b = bank % (len / bank_size);
            proof {
                assert(b * bank_size + offset < len) by (nonlinear_arith)
                    requires
                        b < len / bank_size,
                        len % bank_size == 0,
                        offset < bank_size,
                        bank_size > 0,
                ;
            }
            self.data.set(b * bank_size + offset, value);
        }
    }

    /// Dumps the contents for persistence: a raw byte copy, of length
    /// equal to the declared RAM size.
    pub fn serialize(&self) -> (r: Vec<u8>)
        ensures
            r@ == self@,
    {
        let mut out: Vec<u8> = Vec::new();
        let mut i: usize = 0;
        while i < self.data.len()
            invariant
                i <= self@.len(),
                out@ == self@.subrange(0, i as int),
            decreases self@.len() - i,
        {
            out.push(self.data[i]);
            i = i + 1;
        }
        proof {
            assert(out@ =~= self@);
        }
        out
    }

    /// Restores persisted contents.  Fails, changing nothing, when the
    /// stored length disagrees with the declared RAM size.
    pub fn load(&mut self, saved: &Vec<u8>) -> (r: Result<(), SaveError>)
        requires
            old(self).wf(),
        ensures
            final(self).wf(),
            final(self).spec_battery_backed() == old(self).spec_battery_backed(),
            saved@.len() == old(self)@.len() ==> r is Ok && final(self)@ == saved@,
            saved@.len() != old(self)@.len() ==> r == Result::<(), SaveError>::Err(
                SaveError::SaveSizeMismatch,
            ) && final(self)@ == old(self)@,
    {
        if saved.len() != self.data.len() {
            return Err(SaveError::SaveSizeMismatch);
        }
        let mut data: Vec<u8> = Vec::new();
        let mut i: usize = 0;
        while i < saved.len()
            invariant
                i <= saved@.len(),
                data@ == saved@.subrange(0, i as int),
            decreases saved@.len() - i,
        {
            data.push(saved[i]);
            proof {
                assert(data@ =~= saved@.subrange(0, i + 1));
            }
            i = i + 1;
        }
        proof {
            assert(data@ =~= saved@);
        }
        self.data = data;
        Ok(())
    }
}

} // verus!
