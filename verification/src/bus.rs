//! The top-level address bus: the single authority for the 16-bit
//! CPU-visible address space during one emulation session.
//!
//! Cartridge-space accesses are delegated to the memory bank
//! controller; video RAM, work RAM and high RAM are owned by the bus
//! itself.  Addresses this core does not implement (the sprite
//! attribute table, the unusable gap, I/O ports, and the interrupt
//! enable register) yield an explicit unhandled-region signal, never
//! silent corruption.

use vstd::prelude::*;

use crate::mbc::MbcView;
use crate::mbc::MemoryBankController;
use crate::mbc::mbc_read_spec;
use crate::mbc::mbc_view_wf;
use crate::mbc::mbc_write_spec;

verus! {

/// Size in bytes of video RAM (0x8000-0x9FFF).
pub const VRAM_SIZE: usize = 0x2000;

/// Size in bytes of work RAM (0xC000-0xDFFF).
pub const WRAM_SIZE: usize = 0x2000;

/// Size in bytes of high RAM (0xFF80-0xFFFE).
pub const HRAM_SIZE: usize = 0x7F;

/// Mathematical model of the bus: the controller model plus the three
/// on-console RAM regions.
pub struct BusView {
    pub mbc: MbcView,
    pub vram: Seq<u8>,
    pub wram: Seq<u8>,
    pub hram: Seq<u8>,
}

/// Well-formedness of a bus model: a well-formed controller and the
/// three regions at their fixed sizes.
pub open spec fn bus_view_wf(b: BusView) -> bool {
    &&& mbc_view_wf(b.mbc)
    &&& b.vram.len() == VRAM_SIZE
    &&& b.wram.len() == WRAM_SIZE
    &&& b.hram.len() == HRAM_SIZE
}

/// Whether the bus implements the given address: cartridge space,
/// video RAM, cartridge RAM, work RAM, the echo region, or high RAM.
pub open spec fn bus_handles(address: u16) -> bool {
    ||| address < 0xE000
    ||| (0xE000 <= address < 0xFE00)
    ||| (0xFF80 <= address < 0xFFFF)
}

/// The byte a bus read yields, by address range.  The echo region
/// 0xE000-0xFDFF observes work RAM at offset -0x2000.  Unhandled
/// regions yield no byte.
pub open spec fn bus_read_spec(b: BusView, address: u16) -> Option<u8> {
    if address < 0x8000 {
        Some(mbc_read_spec(b.mbc, address))
    } else if address < 0xA000 {
        Some(b.vram[address - 0x8000])
    } else if address < 0xC000 {
        Some(mbc_read_spec(b.mbc, address))
    } else if address < 0xE000 {
        Some(b.wram[address - 0xC000])
    } else if address < 0xFE00 {
        Some(b.wram[address - 0xE000])
    } else if 0xFF80 <= address < 0xFFFF {
        Some(b.hram[address - 0xFF80])
    } else {
        None
    }
}

/// The bus state after a write, by address range.  The echo region
/// stores into work RAM at offset -0x2000; writes to unhandled regions
/// change nothing.
pub open spec fn bus_write_spec(b: BusView, address: u16, value: u8) -> BusView {
    if address < 0x8000 {
        BusView { mbc: mbc_write_spec(b.mbc, address, value), ..b }
    } else if address < 0xA000 {
        BusView { vram: b.vram.update(address - 0x8000, value), ..b }
    } else if address < 0xC000 {
        BusView { mbc: mbc_write_spec(b.mbc, address, value), ..b }
    } else if address < 0xE000 {
        BusView { wram: b.wram.update(address - 0xC000, value), ..b }
    } else if address < 0xFE00 {
        BusView { wram: b.wram.update(address - 0xE000, value), ..b }
    } else if 0xFF80 <= address < 0xFFFF {
        BusView { hram: b.hram.update(address - 0xFF80, value), ..b }
    } else {
        b
    }
}

/// The console-side memory map: one memory bank controller plus the
/// video, work and high RAM regions, created once per emulation
/// session at ROM load.
pub struct GBMemory {
    mbc: MemoryBankController,
    vram: Vec<u8>,
    wram: Vec<u8>,
    hram: Vec<u8>,
}

impl View for GBMemory {
    type V = BusView;

    closed spec fn view(&self) -> BusView {
        BusView { mbc: self.mbc@, vram: self.vram@, wram: self.wram@, hram: self.hram@ }
    }
}

/// Allocates a zero-filled byte buffer of the given length.
fn zeroed(size: usize) -> (r: Vec<u8>)
    ensures
        r@ == Seq::new(size as nat, |i: int| 0u8),
{
    let mut data: Vec<u8> = Vec::new();
    while data.len() < size
        invariant
            data@.len() <= size,
            forall|i: int| 0 <= i < data@.len() ==> data@[i] == 0u8,
        decreases size - data@.len(),
    {
        data.push(0);
    }
    proof {
        assert(data@ =~= Seq::new(size as nat, |i: int| 0u8));
    }
    data
}

impl GBMemory {
    /// Well-formedness of the bus.
    pub open spec fn wf(&self) -> bool {
        bus_view_wf(self@)
    }

    /// Builds the bus around a controller, with zeroed video, work and
    /// high RAM.
    pub fn new(mbc: MemoryBankController) -> (r: GBMemory)
        requires
            mbc.wf(),
        ensures
            r.wf(),
            r@ == (BusView {
                mbc: mbc@,
                vram: Seq::new(VRAM_SIZE as nat, |i: int| 0u8),
                wram: Seq::new(WRAM_SIZE as nat, |i: int| 0u8),
                hram: Seq::new(HRAM_SIZE as nat, |i: int| 0u8),
            }),
    {
        GBMemory { mbc, vram: zeroed(VRAM_SIZE), wram: zeroed(WRAM_SIZE), hram: zeroed(HRAM_SIZE) }
    }

    /// Reads one byte; addresses in unhandled regions yield `None`.
    pub fn read(&self, address: u16) -> (r: Option<u8>)
        requires
            self.wf(),
        ensures
            r == bus_read_spec(self@, address),
            r is Some <==> bus_handles(address),
    {
        if address < 0x8000 {
            Some(self.mbc.read(address))
        } else if address < 0xA000 {
            Some(self.vram[(address - 0x8000) as usize])
        } else if address < 0xC000 {
            Some(self.mbc.read(address))
        } else if address < 0xE000 {
            Some(self.wram[(address - 0xC000) as usize])
        } else if address < 0xFE00 {
            Some(self.wram[(address - 0xE000) as usize])
        } else if address >= 0xFF80 && address < 0xFFFF {
            Some(self.hram[(address - 0xFF80) as usize])
        } else {
            None
        }
    }

    /// Writes one byte; returns whether the address was handled.
    /// Writes to unhandled regions change nothing.
    pub fn write(&mut self, address: u16, value: u8) -> (handled: bool)
        requires
            old(self).wf(),
        ensures
            final(self).wf(),
            final(self)@ == bus_write_spec(old(self)@, address, value),
            handled == bus_handles(address),
    {
        if address < 0x8000 {
            self.mbc.write(address, value);
            true
        } else if address < 0xA000 {
            self.vram.set((address - 0x8000) as usize, value);
            true
        } else if address < 0xC000 {
            self.mbc.write(address, value);
            true
        } else if address < 0xE000 {
            self.wram.set((address - 0xC000) as usize, value);
            true
        } else if address < 0xFE00 {
            self.wram.set((address - 0xE000) as usize, value);
            true
        } else if address >= 0xFF80 && address < 0xFFFF {
            self.hram.set((address - 0xFF80) as usize, value);
            true
        } else {
            false
        }
    }
}

/// Echo-region law: every address in 0xE000-0xFDFF observes and
/// mutates exactly the same underlying work-RAM cell as the address
/// 0x2000 below it - a read through either yields the same byte, and a
/// write through either produces the same bus state.
pub proof fn lemma_echo_region_aliases_work_ram(b: BusView, address: u16)
    requires
        0xE000 <= address < 0xFE00,
    ensures
        bus_read_spec(b, address) == bus_read_spec(b, (address - 0x2000) as u16),
        forall|value: u8|
            bus_write_spec(b, address, value) == bus_write_spec(b, (address - 0x2000) as u16, value),
{
}

} // verus!
