//! The byte-addressed memory capability the processor runs against.
//!
//! A `Mem` is anything that can read or write one byte at a 16-bit
//! address. Its observable behaviour is pinned by four spec functions
//! over the implementor's view: whether an access succeeds, what a read
//! returns, and what state the memory is left in. Reads may carry side
//! effects (the PPU's data port does), so the model threads the state.
use vstd::prelude::*;

verus! {

/// A fatal access fault: the kinds of programmer error the memory bus
/// and the processor report.
#[derive(Clone, Copy, Debug, PartialEq, Eq, Structural)]
pub enum Fault {
    /// A read of a write-only PPU register.
    ReadWriteOnly(u16),
    /// A read of a register this core does not serve.
    ReadUnsupported(u16),
    /// A write to the read-only PPU status register.
    WriteReadOnly(u16),
    /// A write to a register this core does not serve.
    WriteUnsupported(u16),
    /// A write into the PRG-ROM window.
    WriteToRom(u16),
    /// A PPU data write aimed at the read-only pattern tables.
    WriteToChr(u16),
    /// An operand address was requested for a mode that has none.
    NoOperandAddress,
    /// The fetched opcode byte is not in the opcode table.
    UnknownOpcode(u8, u16),
}

/// Anything that can read and write a byte at a 16-bit address.
///
/// The four `ok`/`val`/`post` spec functions are the memory's model: a
/// read at `addr` succeeds iff `ok_read`, returns `read_val` of the
/// pre-state and leaves the memory at `post_read`; writes likewise.
pub trait Mem: View + Sized {
    /// The well-formedness of a memory state.
    spec fn inv(v: Self::V) -> bool;

    /// Whether a read at `addr` succeeds.
    spec fn ok_read(v: Self::V, addr: u16) -> bool;

    /// The byte a read at `addr` returns.
    spec fn read_val(v: Self::V, addr: u16) -> u8;

    /// The state a read at `addr` leaves behind.
    spec fn post_read(v: Self::V, addr: u16) -> Self::V;

    /// Whether a write at `addr` succeeds.
    spec fn ok_write(v: Self::V, addr: u16) -> bool;

    /// The fault a failing read at `addr` reports: the diagnostic names
    /// the offending address and kind.
    spec fn read_fault(v: Self::V, addr: u16) -> Fault;

    /// The fault a failing write at `addr` reports.
    spec fn write_fault(v: Self::V, addr: u16) -> Fault;

    /// The state a write of `value` at `addr` leaves behind.
    spec fn post_write(v: Self::V, addr: u16, value: u8) -> Self::V;

    fn mem_read(&mut self, addr: u16) -> (r: Result<u8, Fault>)
        requires
            Self::inv(old(self)@),
        ensures
            Self::inv(final(self)@),
            r is Ok <==> Self::ok_read(old(self)@, addr),
            r matches Ok(b) ==> b == Self::read_val(old(self)@, addr) && final(self)@
                == Self::post_read(old(self)@, addr),
            r is Err ==> r == Err::<u8, Fault>(Self::read_fault(old(self)@, addr)) && final(self)@
                == old(self)@,
    ;

    fn mem_write(&mut self, addr: u16, value: u8) -> (r: Result<(), Fault>)
        requires
            Self::inv(old(self)@),
        ensures
            Self::inv(final(self)@),
            r is Ok <==> Self::ok_write(old(self)@, addr),
            r is Ok ==> final(self)@ == Self::post_write(old(self)@, addr, value),
            r is Err ==> r == Err::<(), Fault>(Self::write_fault(old(self)@, addr)) && final(
                self)@ == old(self)@,
    ;

}

/// A little-endian 16-bit read: the low byte at `pos`, the high byte
/// at `pos + 1`.
pub fn mem_read_u16<M: Mem>(m: &mut M, pos: u16) -> (r: Result<u16, Fault>)
    requires
        M::inv(old(m)@),
    ensures
        M::inv(final(m)@),
        r is Ok <==> read16_ok::<M>(old(m)@, pos),
        r matches Ok(w) ==> w == read16_val::<M>(old(m)@, pos) && final(m)@ == read16_post::<M>(
            old(m)@,
            pos,
        ),
{
    let lo = match m.mem_read(pos) {
        Ok(b) => b,
        Err(e) => {
            return Err(e);
        },
    };
    let hi = match m.mem_read(pos.wrapping_add(1)) {
        Ok(b) => b,
        Err(e) => {
            return Err(e);
        },
    };
    Ok(((hi as u16) << 8) | (lo as u16))
}

/// A little-endian 16-bit write: the low byte at `pos`, the high byte
/// at `pos + 1`.
pub fn mem_write_u16<M: Mem>(m: &mut M, pos: u16, value: u16) -> (r: Result<(), Fault>)
    requires
        M::inv(old(m)@),
    ensures
        M::inv(final(m)@),
        r is Ok <==> write16_ok::<M>(old(m)@, pos, value),
        r is Ok ==> final(m)@ == write16_post::<M>(old(m)@, pos, value),
{
    let lo = (value & 0x00FF) as u8;
    let hi = (value >> 8) as u8;
    match m.mem_write(pos, lo) {
        Ok(()) => (),
        Err(e) => {
            return Err(e);
        },
    }
    m.mem_write(pos.wrapping_add(1), hi)
}

/// Both byte reads of a little-endian 16-bit read succeed.
pub open spec fn read16_ok<M: Mem>(v: M::V, pos: u16) -> bool {
    M::ok_read(v, pos) && M::ok_read(M::post_read(v, pos), pos.wrapping_add(1))
}

/// The value of a little-endian 16-bit read.
pub open spec fn read16_val<M: Mem>(v: M::V, pos: u16) -> u16 {
    word(M::read_val(v, pos), M::read_val(M::post_read(v, pos), pos.wrapping_add(1)))
}

/// The memory state after a little-endian 16-bit read.
pub open spec fn read16_post<M: Mem>(v: M::V, pos: u16) -> M::V {
    M::post_read(M::post_read(v, pos), pos.wrapping_add(1))
}

/// Both byte writes of a little-endian 16-bit write succeed.
pub open spec fn write16_ok<M: Mem>(v: M::V, pos: u16, value: u16) -> bool {
    M::ok_write(v, pos) && M::ok_write(
        M::post_write(v, pos, (value & 0x00FF) as u8),
        pos.wrapping_add(1),
    )
}

/// The memory state after a little-endian 16-bit write.
pub open spec fn write16_post<M: Mem>(v: M::V, pos: u16, value: u16) -> M::V {
    M::post_write(
        M::post_write(v, pos, (value & 0x00FF) as u8),
        pos.wrapping_add(1),
        (value >> 8) as u8,
    )
}

/// The address of the byte after `pos` within the same 256-byte page:
/// the low byte increments and wraps, the high byte is kept.
pub open spec fn same_page_next(pos: u16) -> u16 {
    (pos & 0xFF00) | (pos.wrapping_add(1) & 0x00FF)
}

/// Both byte reads of a page-wrapped 16-bit read succeed.
pub open spec fn read16_wrapped_ok<M: Mem>(v: M::V, pos: u16) -> bool {
    M::ok_read(v, pos) && M::ok_read(M::post_read(v, pos), same_page_next(pos))
}

/// The value of a page-wrapped 16-bit read: the high byte never crosses
/// into the next page.
pub open spec fn read16_wrapped_val<M: Mem>(v: M::V, pos: u16) -> u16 {
    word(M::read_val(v, pos), M::read_val(M::post_read(v, pos), same_page_next(pos)))
}

/// The memory state after a page-wrapped 16-bit read.
pub open spec fn read16_wrapped_post<M: Mem>(v: M::V, pos: u16) -> M::V {
    M::post_read(M::post_read(v, pos), same_page_next(pos))
}

/// When a pointer sits on the last byte of a 256-byte page, the byte
/// "after" it for a page-wrapped read is the first byte of the same
/// page: the quirk an indirect jump must reproduce.
pub proof fn lemma_page_wrap_stays_on_page(pos: u16)
    by (bit_vector)
    requires
        pos & 0x00FF == 0xFF,
    ensures
        same_page_next(pos) == pos & 0xFF00,
{
}

/// A 16-bit word from its low and high bytes.
pub open spec fn word(lo: u8, hi: u8) -> u16 {
    ((hi as u16) << 8) | (lo as u16)
}

/// A 16-bit read that reproduces the 6502's page-boundary quirk: the low
/// byte comes from `pos`, the high byte from the address that follows
/// `pos` within the same 256-byte page. Indirect jumps and zero-page
/// pointer dereferences go through this, never across a page.
pub fn mem_read_u16_page_wrap<M: Mem>(m: &mut M, pos: u16) -> (r: Result<u16, Fault>)
    requires
        M::inv(old(m)@),
    ensures
        M::inv(final(m)@),
        r is Ok <==> read16_wrapped_ok::<M>(old(m)@, pos),
        r matches Ok(w) ==> w == read16_wrapped_val::<M>(old(m)@, pos) && final(m)@
            == read16_wrapped_post::<M>(old(m)@, pos),
{
    let lo = match m.mem_read(pos) {
        Ok(b) => b,
        Err(e) => {
            return Err(e);
        },
    };
    let hi_addr = (pos & 0xFF00) | (pos.wrapping_add(1) & 0x00FF);
    let hi = match m.mem_read(hi_addr) {
        Ok(b) => b,
        Err(e) => {
            return Err(e);
        },
    };
    Ok(((hi as u16) << 8) | (lo as u16))
}

/// A zero-filled byte vector of the asked-for length.
pub fn zero_vec(n: usize) -> (r: Vec<u8>)
    ensures
        r@ =~= Seq::new(n as nat, |i: int| 0u8),
{
    let mut cells: Vec<u8> = Vec::new();
    let mut i: usize = 0;
    while i < n
        invariant
            i <= n,
            cells@.len() == i,
            forall|j: int| 0 <= j < i ==> cells@[j] == 0u8,
        decreases n - i,
    {
        cells.push(0);
        i = i + 1;
    }
    cells
}

/// A flat 64 KiB memory: every address readable and writable, reads free
/// of side effects. The processor's unit tests run against it.
pub struct FlatMem {
    pub cells: Vec<u8>,
}

impl View for FlatMem {
    type V = Seq<u8>;

    open spec fn view(&self) -> Seq<u8> {
        self.cells@
    }
}

impl FlatMem {
    /// A zero-filled 64 KiB memory.
    pub fn new() -> (r: FlatMem)
        ensures
            FlatMem::inv(r@),
            r@ =~= Seq::new(0x10000, |i: int| 0u8),
    {
        FlatMem { cells: zero_vec(0x10000) }
    }
}

impl Mem for FlatMem {
    open spec fn inv(v: Seq<u8>) -> bool {
        v.len() == 0x10000
    }

    open spec fn ok_read(v: Seq<u8>, addr: u16) -> bool {
        true
    }

    open spec fn read_val(v: Seq<u8>, addr: u16) -> u8 {
        v[addr as int]
    }

    open spec fn post_read(v: Seq<u8>, addr: u16) -> Seq<u8> {
        v
    }

    open spec fn ok_write(v: Seq<u8>, addr: u16) -> bool {
        true
    }

    open spec fn read_fault(v: Seq<u8>, addr: u16) -> Fault {
        Fault::ReadUnsupported(addr)
    }

    open spec fn write_fault(v: Seq<u8>, addr: u16) -> Fault {
        Fault::WriteUnsupported(addr)
    }

    open spec fn post_write(v: Seq<u8>, addr: u16, value: u8) -> Seq<u8> {
        v.update(addr as int, value)
    }

    fn mem_read(&mut self, addr: u16) -> (r: Result<u8, Fault>) {
        Ok(self.cells[addr as usize])
    }

    fn mem_write(&mut self, addr: u16, value: u8) -> (r: Result<(), Fault>) {
        self.cells.set(addr as usize, value);
        Ok(())
    }
}

} // verus!
