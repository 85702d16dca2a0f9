//! Cartridge-side memory subsystem of the classic Game Boy handheld:
//! header parsing and validation, bank-indexed ROM/RAM storage, the
//! bank-switching memory controller, and the top-level address bus.

pub mod bus;
pub mod checksum;
pub mod header;
pub mod mbc;
pub mod storage;
pub mod text;
