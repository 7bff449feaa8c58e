// CNROM bank switching: the program windows are permanently wired; a single
// unmasked register selects the visible 8KB character ROM bank.

use vstd::prelude::*;
use crate::cartridge::CartridgeData;
use crate::cartridge::Fault;
use crate::cartridge::Mapper;
use crate::cartridge::Mirroring;
use crate::cartridge::pager::Page;
use crate::cartridge::pager::PageSizeKb;
use crate::cartridge::pager::spec_read;

verus! {

/// CNROM board state: the cartridge buffers and one bank-select register.
///
/// The program windows are fixed: 0x8000..0xC000 shows the first 16KB
/// program bank, 0xC000..=0xFFFF the last; a write into the program range
/// latches `chr_0` instead. The written value is not masked — boards carry
/// few banks, so an oversized value surfaces as `Fault::PageBoundsFault` at
/// the next character read. Character space is ROM; writes are discarded.
pub struct Mapper3 {
    pub data: CartridgeData,
    pub chr_0: usize,
}

impl Mapper3 {
    /// Takes ownership of the cartridge and starts with character bank 0
    /// selected.
    pub fn new(data: CartridgeData) -> (r: Mapper3)
        ensures
            r.data == data,
            r.chr_0 == 0,
    {
        Mapper3 { data, chr_0: 0 }
    }
}

impl Mapper for Mapper3 {
    open spec fn read_prg_spec(self, address: u16) -> Result<u8, Fault> {
        if address < 0x8000 {
            Err(Fault::AddressFault)
        } else if address < 0xC000 {
            spec_read(
                self.data.prg_rom@,
                Page::First(PageSizeKb::Sixteen),
                (address - 0x8000) as u16,
            )
        } else {
            spec_read(self.data.prg_rom@, Page::Last(PageSizeKb::Sixteen), (address - 0xC000) as u16)
        }
    }

    open spec fn write_prg_spec(self, post: Mapper3, address: u16, value: u8, r: Result<
        (),
        Fault,
    >) -> bool {
        if address < 0x8000 {
            post == self && r == Err::<(), Fault>(Fault::AddressFault)
        } else {
            post == (Mapper3 { data: self.data, chr_0: value as usize }) && r == Ok::<(), Fault>(())
        }
    }

    open spec fn read_chr_spec(self, address: u16) -> Result<u8, Fault> {
        if address >= 0x2000 {
            Err(Fault::AddressFault)
        } else {
            spec_read(self.data.chr_rom@, Page::Number(self.chr_0, PageSizeKb::Eight), address)
        }
    }

    open spec fn write_chr_spec(self, post: Mapper3, address: u16, value: u8, r: Result<
        (),
        Fault,
    >) -> bool {
        if address >= 0x2000 {
            post == self && r == Err::<(), Fault>(Fault::AddressFault)
        } else {
            post == self && r == Ok::<(), Fault>(())
        }
    }

    open spec fn mirroring_spec(self) -> Mirroring {
        self.data.header.mirroring
    }

    fn read_prg_byte(&self, address: u16) -> (r: Result<u8, Fault>) {
        if address < 0x8000 {
            Err(Fault::AddressFault)
        } else if address < 0xC000 {
            self.data.prg_rom.read(Page::First(PageSizeKb::Sixteen), address - 0x8000)
        } else {
            self.data.prg_rom.read(Page::Last(PageSizeKb::Sixteen), address - 0xC000)
        }
    }

    fn write_prg_byte(&mut self, address: u16, value: u8) -> (r: Result<(), Fault>) {
        if address < 0x8000 {
            Err(Fault::AddressFault)
        } else {
            self.chr_0 = value as usize;
            Ok(())
        }
    }

    fn read_chr_byte(&self, address: u16) -> (r: Result<u8, Fault>) {
        if address >= 0x2000 {
            Err(Fault::AddressFault)
        } else {
            self.data.chr_rom.read(Page::Number(self.chr_0, PageSizeKb::Eight), address)
        }
    }

    fn write_chr_byte(&mut self, address: u16, value: u8) -> (r: Result<(), Fault>) {
        if address >= 0x2000 {
            Err(Fault::AddressFault)
        } else {
            Ok(())
        }
    }

    fn mirroring(&self) -> (r: Mirroring) {
        self.data.header.mirroring
    }
}

/// Law: the program windows are permanently wired — no program-space write
/// changes what any program-space read yields.
pub proof fn lemma_mapper3_prg_fixed(
    m: Mapper3,
    post: Mapper3,
    waddr: u16,
    value: u8,
    r: Result<(), Fault>,
    raddr: u16,
)
    requires
        m.write_prg_spec(post, waddr, value, r),
    ensures
        post.read_prg_spec(raddr) == m.read_prg_spec(raddr),
{
}

/// Law: the low program window shows byte 0 of the first 16KB bank and the
/// high window byte 0 of the last, in every state.
pub proof fn lemma_mapper3_prg_windows(m: Mapper3)
    requires
        m.data.prg_rom@.len() as int % PageSizeKb::Sixteen.spec_bytes() == 0,
        m.data.prg_rom@.len() >= 0x4000,
    ensures
        m.read_prg_spec(0x8000) == Ok::<u8, Fault>(m.data.prg_rom@[0]),
        m.read_prg_spec(0xC000) == Ok::<u8, Fault>(
            m.data.prg_rom@[m.data.prg_rom@.len() - 0x4000],
        ),
{
    vstd::arithmetic::div_mod::lemma_fundamental_div_mod(m.data.prg_rom@.len() as int, 0x4000);
}

/// Law: character space is ROM — a write inside the window is accepted and
/// discarded, and the state is left exactly as it was.
pub proof fn lemma_mapper3_chr_write_discarded(
    m: Mapper3,
    post: Mapper3,
    address: u16,
    value: u8,
    r: Result<(), Fault>,
)
    requires
        m.write_chr_spec(post, address, value, r),
    ensures
        post == m,
        address < 0x2000 ==> r == Ok::<(), Fault>(()),
        address >= 0x2000 ==> r == Err::<(), Fault>(Fault::AddressFault),
{
}

/// Law: a program-space write latches the whole value, unmasked, into the
/// character bank register, and every character-space read then comes from
/// the character ROM bank it selects.
pub proof fn lemma_mapper3_chr_bank_select(
    m: Mapper3,
    post: Mapper3,
    waddr: u16,
    value: u8,
    r: Result<(), Fault>,
    address: u16,
)
    requires
        waddr >= 0x8000,
        m.write_prg_spec(post, waddr, value, r),
    ensures
        post.chr_0 == value as usize,
        address < 0x2000 ==> post.read_chr_spec(address) == spec_read(
            m.data.chr_rom@,
            Page::Number(value as usize, PageSizeKb::Eight),
            address,
        ),
{
}

/// Law: an access outside the wired windows — program space below 0x8000,
/// character space at or above 0x2000 — answers `Fault::AddressFault` and
/// changes nothing.
pub proof fn lemma_mapper3_address_fault(
    m: Mapper3,
    post_p: Mapper3,
    post_c: Mapper3,
    address: u16,
    value: u8,
    rp: Result<(), Fault>,
    rc: Result<(), Fault>,
)
    requires
        m.write_prg_spec(post_p, address, value, rp),
        m.write_chr_spec(post_c, address, value, rc),
    ensures
        address < 0x8000 ==> m.read_prg_spec(address) == Err::<u8, Fault>(Fault::AddressFault),
        address < 0x8000 ==> post_p == m && rp == Err::<(), Fault>(Fault::AddressFault),
        address >= 0x2000 ==> m.read_chr_spec(address) == Err::<u8, Fault>(Fault::AddressFault),
        address >= 0x2000 ==> post_c == m && rc == Err::<(), Fault>(Fault::AddressFault),
{
}

} // verus!
