// UxROM bank switching: a single 4-bit register selects the 16KB program
// bank visible at the low window; the high window is wired to the last bank.

use vstd::prelude::*;
use crate::cartridge::CartridgeData;
use crate::cartridge::Fault;
use crate::cartridge::Mapper;
use crate::cartridge::Mirroring;
use crate::cartridge::pager::Page;
use crate::cartridge::pager::PageSizeKb;
use crate::cartridge::pager::spec_read;
use crate::cartridge::pager::spec_resolve;
use crate::cartridge::pager::spec_write;
use crate::cartridge::pager::lemma_write_then_read;

verus! {

/// UxROM board state: the cartridge buffers and one bank-select register.
///
/// `prg_0` selects the 16KB program bank mapped at 0x8000..0xC000; the
/// window at 0xC000..=0xFFFF is permanently wired to the last program bank.
/// Character space is a single fixed 8KB page: RAM when the header counts no
/// character ROM pages, ROM (writes discarded) otherwise.
pub struct Mapper2 {
    pub data: CartridgeData,
    pub prg_0: usize,
}

impl Mapper2 {
    /// The bank-select register is four bits wide: every reachable state
    /// keeps it within [0, 15].
    pub open spec fn wf(self) -> bool {
        self.prg_0 <= 0x0F
    }

    /// Takes ownership of the cartridge and starts with bank 0 selected.
    pub fn new(data: CartridgeData) -> (r: Mapper2)
        ensures
            r.data == data,
            r.prg_0 == 0,
            r.wf(),
    {
        Mapper2 { data, prg_0: 0 }
    }
}

impl Mapper for Mapper2 {
    open spec fn read_prg_spec(self, address: u16) -> Result<u8, Fault> {
        if address < 0x8000 {
            Err(Fault::AddressFault)
        } else if address < 0xC000 {
            spec_read(
                self.data.prg_rom@,
                Page::Number(self.prg_0, PageSizeKb::Sixteen),
                (address - 0x8000) as u16,
            )
        } else {
            spec_read(self.data.prg_rom@, Page::Last(PageSizeKb::Sixteen), (address - 0xC000) as u16)
        }
    }

    open spec fn write_prg_spec(self, post: Mapper2, address: u16, value: u8, r: Result<
        (),
        Fault,
    >) -> bool {
        if address < 0x8000 {
            post == self && r == Err::<(), Fault>(Fault::AddressFault)
        } else {
            post == (Mapper2 { data: self.data, prg_0: (value & 0x0F) as usize }) && r == Ok::<
                (),
                Fault,
            >(())
        }
    }

    open spec fn read_chr_spec(self, address: u16) -> Result<u8, Fault> {
        if address >= 0x2000 {
            Err(Fault::AddressFault)
        } else if self.data.header.chr_rom_pages == 0 {
            spec_read(self.data.chr_ram@, Page::First(PageSizeKb::Eight), address)
        } else {
            spec_read(self.data.chr_rom@, Page::First(PageSizeKb::Eight), address)
        }
    }

    open spec fn write_chr_spec(self, post: Mapper2, address: u16, value: u8, r: Result<
        (),
        Fault,
    >) -> bool {
        if address >= 0x2000 {
            post == self && r == Err::<(), Fault>(Fault::AddressFault)
        } else if self.data.header.chr_rom_pages == 0 {
            &&& post.prg_0 == self.prg_0
            &&& post.data.prg_rom == self.data.prg_rom
            &&& post.data.chr_rom == self.data.chr_rom
            &&& post.data.header == self.data.header
            &&& match spec_write(self.data.chr_ram@, Page::First(PageSizeKb::Eight), address, value) {
                Ok(d) => post.data.chr_ram@ == d && r == Ok::<(), Fault>(()),
                Err(f) => post.data.chr_ram@ == self.data.chr_ram@ && r == Err::<(), Fault>(f),
            }
        } else {
            post == self && r == Ok::<(), Fault>(())
        }
    }

    open spec fn mirroring_spec(self) -> Mirroring {
        self.data.header.mirroring
    }

    fn read_prg_byte(&self, address: u16) -> (r: Result<u8, Fault>) {
        if address < 0x8000 {
            Err(Fault::AddressFault)
        } else if address < 0xC000 {
            self.data.prg_rom.read(Page::Number(self.prg_0, PageSizeKb::Sixteen), address - 0x8000)
        } else {
            self.data.prg_rom.read(Page::Last(PageSizeKb::Sixteen), address - 0xC000)
        }
    }

    fn write_prg_byte(&mut self, address: u16, value: u8) -> (r: Result<(), Fault>) {
        if address < 0x8000 {
            Err(Fault::AddressFault)
        } else {
            self.prg_0 = (value & 0x0F) as usize;
            Ok(())
        }
    }

    fn read_chr_byte(&self, address: u16) -> (r: Result<u8, Fault>) {
        if address >= 0x2000 {
            Err(Fault::AddressFault)
        } else if self.data.header.chr_rom_pages == 0 {
            self.data.chr_ram.read(Page::First(PageSizeKb::Eight), address)
        } else {
            self.data.chr_rom.read(Page::First(PageSizeKb::Eight), address)
        }
    }

    fn write_chr_byte(&mut self, address: u16, value: u8) -> (r: Result<(), Fault>) {
        if address >= 0x2000 {
            Err(Fault::AddressFault)
        } else if self.data.header.chr_rom_pages == 0 {
            self.data.chr_ram.write(Page::First(PageSizeKb::Eight), address, value)
        } else {
            Ok(())
        }
    }

    fn mirroring(&self) -> (r: Mirroring) {
        self.data.header.mirroring
    }
}

/// Law: the bank-select register is four bits wide — a program-space write
/// keeps every reachable state well formed.
pub proof fn lemma_mapper2_register_width(
    m: Mapper2,
    post: Mapper2,
    address: u16,
    value: u8,
    r: Result<(), Fault>,
)
    requires
        m.wf(),
        m.write_prg_spec(post, address, value, r),
    ensures
        post.wf(),
{
    assert(value & 0x0F <= 0x0F) by (bit_vector);
}

/// Law: the high program window is wired to the last 16KB bank — at address
/// 0xC000 a Mapper2 yields byte 0 of that bank, whatever the bank register
/// holds (in particular when freshly constructed).
pub proof fn lemma_mapper2_high_window_reads_last_bank(m: Mapper2)
    requires
        m.data.prg_rom@.len() as int % PageSizeKb::Sixteen.spec_bytes() == 0,
        m.data.prg_rom@.len() >= 0x4000,
    ensures
        m.read_prg_spec(0xC000) == Ok::<u8, Fault>(
            m.data.prg_rom@[m.data.prg_rom@.len() - 0x4000],
        ),
{
    vstd::arithmetic::div_mod::lemma_fundamental_div_mod(m.data.prg_rom@.len() as int, 0x4000);
}

/// Law: a program-space write latches the low four bits of the value into
/// the bank register, and the low program window then reads from the bank
/// they select.
pub proof fn lemma_mapper2_write_selects_low_bank(
    m: Mapper2,
    post: Mapper2,
    waddr: u16,
    value: u8,
    r: Result<(), Fault>,
    raddr: u16,
)
    requires
        waddr >= 0x8000,
        0x8000 <= raddr < 0xC000,
        m.write_prg_spec(post, waddr, value, r),
    ensures
        post.prg_0 == (value & 0x0F) as usize,
        post.read_prg_spec(raddr) == spec_read(
            m.data.prg_rom@,
            Page::Number((value & 0x0F) as usize, PageSizeKb::Sixteen),
            (raddr - 0x8000) as u16,
        ),
{
}

/// Law: on a board with character RAM, a character-space write followed by
/// a read of the same address yields the value written.
pub proof fn lemma_mapper2_chr_ram_round_trip(
    m: Mapper2,
    post: Mapper2,
    address: u16,
    value: u8,
    r: Result<(), Fault>,
)
    requires
        m.data.header.chr_rom_pages == 0,
        spec_resolve(m.data.chr_ram@.len() as int, Page::First(PageSizeKb::Eight), address) is Ok,
        m.write_chr_spec(post, address, value, r),
    ensures
        r == Ok::<(), Fault>(()),
        post.read_chr_spec(address) == Ok::<u8, Fault>(value),
{
    lemma_write_then_read(m.data.chr_ram@, Page::First(PageSizeKb::Eight), address, value);
}

/// Law: on a board with character ROM, a character-space write inside the
/// window is accepted and discarded — the state is left exactly as it was.
pub proof fn lemma_mapper2_chr_rom_write_discarded(
    m: Mapper2,
    post: Mapper2,
    address: u16,
    value: u8,
    r: Result<(), Fault>,
)
    requires
        m.data.header.chr_rom_pages > 0,
        address < 0x2000,
        m.write_chr_spec(post, address, value, r),
    ensures
        post == m,
        r == Ok::<(), Fault>(()),
{
}

/// Law: an access outside the wired windows — program space below 0x8000,
/// character space at or above 0x2000 — answers `Fault::AddressFault` and
/// changes nothing.
pub proof fn lemma_mapper2_address_fault(
    m: Mapper2,
    post_p: Mapper2,
    post_c: Mapper2,
    address: u16,
    value: u8,
    rp: Result<(), Fault>,
    rc: Result<(), Fault>,
)
    requires
        m.write_prg_spec(post_p, address, value, rp),
        m.write_chr_spec(post_c, address, value, rc),
    ensures
        address < 0x8000 ==> m.read_prg_spec(address) == Err::<u8, Fault>(Fault::AddressFault),
        address < 0x8000 ==> post_p == m && rp == Err::<(), Fault>(Fault::AddressFault),
        address >= 0x2000 ==> m.read_chr_spec(address) == Err::<u8, Fault>(Fault::AddressFault),
        address >= 0x2000 ==> post_c == m && rc == Err::<(), Fault>(Fault::AddressFault),
{
}

} // verus!
