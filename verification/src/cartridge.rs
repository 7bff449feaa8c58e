// Cartridge address-space mapping: a page-indexed addressing engine and the
// bank-switching hardware built on top of it.

pub mod pager;
pub mod mapper2;
pub mod mapper3;

use vstd::prelude::*;
use crate::cartridge::pager::Pager;

verus! {

/// A fault raised by cartridge address translation. Every fault is fatal to
/// the cartridge session: it signals either a bus-wiring defect in the caller
/// or a malformed ROM/RAM image loaded earlier, never a recoverable condition.
#[derive(Copy, Clone, Debug, PartialEq, Eq, Structural)]
pub enum Fault {
    /// The address lies outside the window a mapper is wired to answer.
    AddressFault,
    /// A resolved bank index or an in-page offset is out of range.
    PageBoundsFault,
    /// The buffer length is not an exact multiple of the requested page size.
    MalformedImageFault,
}

/// Video-memory mirroring mode, fixed by cartridge wiring. Mappers report it
/// unchanged from the header; nothing in this subsystem computes with it.
#[derive(Copy, Clone, Debug, PartialEq, Eq, Structural)]
pub enum Mirroring {
    Horizontal,
    Vertical,
    FourScreen,
}

/// Immutable cartridge header metadata consumed by the mappers.
#[derive(Copy, Clone, Debug, PartialEq, Eq, Structural)]
pub struct Header {
    /// Mirroring mode fixed by the board wiring.
    pub mirroring: Mirroring,
    /// Number of 8KB character ROM pages; zero means the board carries
    /// character RAM instead.
    pub chr_rom_pages: u8,
}

/// The buffers and header metadata of one loaded cartridge, produced by an
/// external file parser. A mapper takes exclusive ownership of its
/// `CartridgeData`; the buffers are thereafter reached only through it.
pub struct CartridgeData {
    /// Program ROM, banked in 16KB pages.
    pub prg_rom: Pager,
    /// Character ROM, banked in 8KB pages; empty on boards that carry RAM.
    pub chr_rom: Pager,
    /// Character RAM, a single 8KB page, present on boards without
    /// character ROM.
    pub chr_ram: Pager,
    /// Immutable header metadata.
    pub header: Header,
}

/// The capability a cartridge mapper exposes to the bus driver: byte access
/// to the program space (bus window 0x8000..=0xFFFF) and the character space
/// (bus window 0x0000..0x2000), plus the wired mirroring mode.
///
/// Each implementor pins its exact hardware behaviour in the five spec
/// functions; the executable methods are bound to them clause for clause.
/// An address outside the wired window is answered with
/// `Fault::AddressFault` and never touches state: it marks a bus-wiring
/// defect in the caller.
pub trait Mapper: Sized {
    /// The byte (or fault) a program-space read of `address` yields.
    spec fn read_prg_spec(self, address: u16) -> Result<u8, Fault>;

    /// How a program-space write of `value` at `address` relates the state
    /// before (`self`) to the state after (`post`) and to its result.
    spec fn write_prg_spec(self, post: Self, address: u16, value: u8, r: Result<
        (),
        Fault,
    >) -> bool;

    /// The byte (or fault) a character-space read of `address` yields.
    spec fn read_chr_spec(self, address: u16) -> Result<u8, Fault>;

    /// How a character-space write of `value` at `address` relates the state
    /// before (`self`) to the state after (`post`) and to its result.
    spec fn write_chr_spec(self, post: Self, address: u16, value: u8, r: Result<
        (),
        Fault,
    >) -> bool;

    /// The mirroring mode the mapper reports.
    spec fn mirroring_spec(self) -> Mirroring;

    /// Reads one byte from the program address space.
    fn read_prg_byte(&self, address: u16) -> (r: Result<u8, Fault>)
        ensures
            r == self.read_prg_spec(address),
    ;

    /// Writes one byte into the program address space. On real boards this
    /// window is ROM: the write lands in a bank-select register, not in
    /// memory.
    fn write_prg_byte(&mut self, address: u16, value: u8) -> (r: Result<(), Fault>)
        ensures
            old(self).write_prg_spec(*final(self), address, value, r),
    ;

    /// Reads one byte from the character address space.
    fn read_chr_byte(&self, address: u16) -> (r: Result<u8, Fault>)
        ensures
            r == self.read_chr_spec(address),
    ;

    /// Writes one byte into the character address space; boards whose
    /// character space is ROM discard the write.
    fn write_chr_byte(&mut self, address: u16, value: u8) -> (r: Result<(), Fault>)
        ensures
            old(self).write_chr_spec(*final(self), address, value, r),
    ;

    /// Reports the header-supplied mirroring mode.
    fn mirroring(&self) -> (r: Mirroring)
        ensures
            r == self.mirroring_spec(),
    ;
}

} // verus!
