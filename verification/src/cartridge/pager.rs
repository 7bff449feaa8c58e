// The page-indexed addressing engine: translates (page selector, offset)
// pairs into linear indices over an owned byte buffer.

use vstd::prelude::*;
use vstd::arithmetic::div_mod::lemma_fundamental_div_mod;
use vstd::arithmetic::div_mod::lemma_div_is_ordered_by_denominator;
use crate::cartridge::Fault;

verus! {

/// An addressing granularity: the byte size of one page of a partition.
#[derive(Copy, Clone, Debug)]
pub enum PageSizeKb {
    One,
    Four,
    Eight,
    Sixteen,
}

impl PageSizeKb {
    /// The granularity in bytes, used as divisor and multiplier in all
    /// index arithmetic.
    pub open spec fn spec_bytes(self) -> int {
        match self {
            PageSizeKb::One => 0x400,
            PageSizeKb::Four => 0x1000,
            PageSizeKb::Eight => 0x2000,
            PageSizeKb::Sixteen => 0x4000,
        }
    }

    /// The granularity in bytes.
    pub fn bytes(self) -> (r: usize)
        ensures
            r == self.spec_bytes(),
    {
        match self {
            PageSizeKb::One => 0x400,
            PageSizeKb::Four => 0x1000,
            PageSizeKb::Eight => 0x2000,
            PageSizeKb::Sixteen => 0x4000,
        }
    }
}

/// A tagged selector naming one bank of a sized partition of a buffer.
/// Every variant reduces to the canonical form `Number(index, size)` before
/// bounds checking, so validation has a single source of truth.
#[derive(Copy, Clone, Debug)]
pub enum Page {
    /// The lowest bank of the partition: `Number(0, size)`.
    First(PageSizeKb),
    /// The highest bank: `Number(page_count(size) - 1, size)`.
    Last(PageSizeKb),
    /// The bank at a given index.
    Number(usize, PageSizeKb),
    /// The bank a given distance below the highest:
    /// `Number(page_count(size) - 1 - distance, size)`.
    FromEnd(usize, PageSizeKb),
}

impl Page {
    /// The granularity this selector partitions the buffer by.
    pub open spec fn spec_size(self) -> PageSizeKb {
        match self {
            Page::First(s) => s,
            Page::Last(s) => s,
            Page::Number(_, s) => s,
            Page::FromEnd(_, s) => s,
        }
    }

    /// The granularity this selector partitions the buffer by.
    pub fn size(self) -> (r: PageSizeKb)
        ensures
            r == self.spec_size(),
    {
        match self {
            Page::First(s) => s,
            Page::Last(s) => s,
            Page::Number(_, s) => s,
            Page::FromEnd(_, s) => s,
        }
    }
}

/// Number of whole pages of the given size in a buffer of the given length.
/// Meaningful only when the size divides the length exactly.
pub open spec fn spec_page_count(len: int, size: PageSizeKb) -> int {
    len / size.spec_bytes()
}

/// The canonical bank index a selector reduces to, in a partition of
/// `count` pages. A value outside `[0, count)` marks the selector invalid
/// for that partition.
pub open spec fn spec_bank(page: Page, count: int) -> int {
    match page {
        Page::First(_) => 0,
        Page::Last(_) => count - 1,
        Page::Number(n, _) => n as int,
        Page::FromEnd(n, _) => count - 1 - n as int,
    }
}

/// Resolution of a (selector, offset) pair against a buffer of length `len`:
/// the linear index addressed, or the fault raised. The page size must divide
/// the length exactly; the offset must lie inside one page; the canonical
/// bank index must name an existing page.
pub open spec fn spec_resolve(len: int, page: Page, offset: u16) -> Result<int, Fault> {
    let size = page.spec_size().spec_bytes();
    if len % size != 0 {
        Err(Fault::MalformedImageFault)
    } else {
        let count = spec_page_count(len, page.spec_size());
        let bank = spec_bank(page, count);
        if offset >= size || bank < 0 || bank >= count {
            Err(Fault::PageBoundsFault)
        } else {
            Ok(bank * size + offset)
        }
    }
}

/// The byte a read of (selector, offset) yields from the buffer, or the
/// fault it raises.
pub open spec fn spec_read(data: Seq<u8>, page: Page, offset: u16) -> Result<u8, Fault> {
    match spec_resolve(data.len() as int, page, offset) {
        Ok(i) => Ok(data[i]),
        Err(f) => Err(f),
    }
}

/// The buffer a write of `value` at (selector, offset) leaves behind, or the
/// fault it raises; a faulting write leaves the buffer untouched.
pub open spec fn spec_write(data: Seq<u8>, page: Page, offset: u16, value: u8) -> Result<
    Seq<u8>,
    Fault,
> {
    match spec_resolve(data.len() as int, page, offset) {
        Ok(i) => Ok(data.update(i, value)),
        Err(f) => Err(f),
    }
}

/// A resolved index always lands inside the buffer.
pub proof fn lemma_resolve_in_bounds(len: int, page: Page, offset: u16)
    requires
        0 <= len,
    ensures
        spec_resolve(len, page, offset) matches Ok(i) ==> 0 <= i < len,
{
    let size = page.spec_size().spec_bytes();
    if spec_resolve(len, page, offset) is Ok {
        let count = spec_page_count(len, page.spec_size());
        let bank = spec_bank(page, count);
        lemma_fundamental_div_mod(len, size);
        assert(bank * size + offset < len) by (nonlinear_arith)
            requires
                0 <= bank < count,
                0 <= offset < size,
                0 < size,
                len == size * count,
        ;
    }
}

/// Law: the first page is page number zero — `Page::First(s)` resolves
/// exactly as `Page::Number(0, s)`, fault for fault, at every offset.
pub proof fn lemma_first_is_page_zero(len: int, s: PageSizeKb, offset: u16)
    ensures
        spec_resolve(len, Page::First(s), offset) == spec_resolve(len, Page::Number(0, s), offset),
{
}

/// Law: the last page is the highest-numbered page — `Page::Last(s)`
/// resolves exactly as `Page::Number(page_count - 1, s)` whenever the size
/// divides the buffer length and at least one page exists.
pub proof fn lemma_last_is_highest_page(len: usize, s: PageSizeKb, offset: u16)
    requires
        len as int % s.spec_bytes() == 0,
        spec_page_count(len as int, s) >= 1,
    ensures
        spec_resolve(len as int, Page::Last(s), offset) == spec_resolve(
            len as int,
            Page::Number((spec_page_count(len as int, s) - 1) as usize, s),
            offset,
        ),
{
    lemma_div_is_ordered_by_denominator(len as int, 1, s.spec_bytes());
}

/// Law: a page counted from the end is the matching page counted from the
/// start — `Page::FromEnd(n, s)` resolves exactly as
/// `Page::Number(page_count - 1 - n, s)` whenever the size divides the
/// buffer length and the distance stays within the partition.
pub proof fn lemma_from_end_is_numbered_page(len: usize, n: usize, s: PageSizeKb, offset: u16)
    requires
        len as int % s.spec_bytes() == 0,
        n < spec_page_count(len as int, s),
    ensures
        spec_resolve(len as int, Page::FromEnd(n, s), offset) == spec_resolve(
            len as int,
            Page::Number((spec_page_count(len as int, s) - 1 - n) as usize, s),
            offset,
        ),
{
    lemma_div_is_ordered_by_denominator(len as int, 1, s.spec_bytes());
}

/// Law: a write followed by a read of the same (selector, offset) yields the
/// value written — for every selector and offset the buffer resolves.
pub proof fn lemma_write_then_read(data: Seq<u8>, page: Page, offset: u16, value: u8)
    requires
        spec_resolve(data.len() as int, page, offset) is Ok,
    ensures
        spec_write(data, page, offset, value) matches Ok(d) && spec_read(d, page, offset) == Ok::<
            u8,
            Fault,
        >(value),
{
    lemma_resolve_in_bounds(data.len() as int, page, offset);
}

/// Owner of one byte buffer, addressed through page selectors.
pub struct Pager {
    pub data: Vec<u8>,
}

impl View for Pager {
    type V = Seq<u8>;

    open spec fn view(&self) -> Seq<u8> {
        self.data@
    }
}

impl Pager {
    /// Wraps a buffer for page-indexed access.
    pub fn new(data: Vec<u8>) -> (r: Pager)
        ensures
            r.data == data,
    {
        Pager { data: data }
    }

    /// Number of pages of the given size in the buffer. The size must divide
    /// the buffer length exactly; a remainder signals a malformed ROM/RAM
    /// image.
    pub fn page_count(&self, size: PageSizeKb) -> (r: Result<usize, Fault>)
        ensures
            self@.len() as int % size.spec_bytes() == 0 ==> (r matches Ok(c) && c
                == spec_page_count(self@.len() as int, size)),
            self@.len() as int % size.spec_bytes() != 0 ==> r == Err::<usize, Fault>(
                Fault::MalformedImageFault,
            ),
    {
        let bytes = size.bytes();
        if self.data.len() % bytes != 0 {
            Err(Fault::MalformedImageFault)
        } else {
            Ok(self.data.len() / bytes)
        }
    }

    /// Reduces a selector to its canonical bank index and resolves the linear
    /// buffer index of (selector, offset), faulting exactly where
    /// `spec_resolve` does.
    pub fn index(&self, page: Page, offset: u16) -> (r: Result<usize, Fault>)
        ensures
            r matches Ok(i) ==> spec_resolve(self@.len() as int, page, offset) == Ok::<int, Fault>(
                i as int,
            ),
            r matches Err(f) ==> spec_resolve(self@.len() as int, page, offset) == Err::<
                int,
                Fault,
            >(f),
    {
        let size = page.size();
        let bytes = size.bytes();
        let count = match self.page_count(size) {
            Ok(c) => c,
            Err(f) => { return Err(f) },
        };
        let bank: usize = match page {
            Page::First(_) => 0,
            Page::Last(_) => {
                if count == 0 {
                    return Err(Fault::PageBoundsFault);
                }
                count - 1
            },
            Page::Number(n, _) => n,
            Page::FromEnd(n, _) => {
                if n >= count {
                    return Err(Fault::PageBoundsFault);
                }
                count - 1 - n
            },
        };
        if offset as usize >= bytes || bank >= count {
            return Err(Fault::PageBoundsFault);
        }
        let len: usize = self.data.len();
        proof {
            lemma_fundamental_div_mod(len as int, size.spec_bytes());
            assert((bank as int) * (bytes as int) + offset < len) by (nonlinear_arith)
                requires
                    0 <= bank < count,
                    0 <= offset < bytes,
                    0 < bytes,
                    len == (bytes as int) * (count as int),
            ;
        }
        Ok(bank * bytes + offset as usize)
    }

    /// Reads the byte addressed by (selector, offset).
    pub fn read(&self, page: Page, offset: u16) -> (r: Result<u8, Fault>)
        ensures
            r == spec_read(self@, page, offset),
    {
        let i = match self.index(page, offset) {
            Ok(i) => i,
            Err(f) => { return Err(f) },
        };
        proof {
            lemma_resolve_in_bounds(self@.len() as int, page, offset);
        }
        Ok(self.data[i])
    }

    /// Writes a byte at (selector, offset), mutating the buffer in place.
    /// A faulting write leaves the buffer unchanged.
    pub fn write(&mut self, page: Page, offset: u16, value: u8) -> (r: Result<(), Fault>)
        ensures
            spec_write(old(self)@, page, offset, value) matches Ok(d) ==> (r == Ok::<(), Fault>(())
                && final(self)@ == d),
            spec_write(old(self)@, page, offset, value) matches Err(f) ==> (r == Err::<(), Fault>(f)
                && final(self)@ == old(self)@),
    {
        let i = match self.index(page, offset) {
            Ok(i) => i,
            Err(f) => { return Err(f) },
        };
        proof {
            lemma_resolve_in_bounds(self@.len() as int, page, offset);
        }
        self.data.set(i, value);
        Ok(())
    }
}

} // verus!
