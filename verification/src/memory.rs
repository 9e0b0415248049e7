//! Data space: the byte-addressed memory of the Forth system.
//!
//! Addresses are offsets from the start of the space, which is 0. Cells are
//! eight bytes, stored little-endian. The first cells hold the system
//! variables.

use vstd::bytes::{
    spec_u32_from_le_bytes, spec_u32_to_le_bytes, spec_u64_from_le_bytes, spec_u64_to_le_bytes,
    u32_from_le_bytes, u32_to_le_bytes, u64_from_le_bytes, u64_to_le_bytes,
};
use vstd::prelude::*;
use vstd::slice::slice_subrange;
use vstd::string::StringSliceAdditionalSpecFns;

verus! {

/// The size of a cell in bytes.
pub const CELL: usize = 8;

/// The size of the system variables at the start of data space.
pub const SYSTEM_VARIABLES_SIZE: usize = 64;

/// The eight bytes of the cell at `pos`.
pub open spec fn cell_bytes(m: Seq<u8>, pos: int) -> Seq<u8> {
    m.subrange(pos, pos + 8)
}

/// The value of the cell at `pos`.
pub open spec fn cell_value(m: Seq<u8>, pos: int) -> u64 {
    spec_u64_from_le_bytes(cell_bytes(m, pos))
}

/// `m` with the cell at `pos` set to `v`.
pub open spec fn write_cell(m: Seq<u8>, pos: int, v: u64) -> Seq<u8> {
    m.subrange(0, pos) + spec_u64_to_le_bytes(v) + m.subrange(pos + 8, m.len() as int)
}

/// `m` with the bytes `s` written from `pos` on.
pub open spec fn write_bytes(m: Seq<u8>, pos: int, s: Seq<u8>) -> Seq<u8> {
    m.subrange(0, pos) + s + m.subrange(pos + s.len(), m.len() as int)
}

/// The value of the 32-bit field at `pos`.
pub open spec fn field_value(m: Seq<u8>, pos: int) -> u32 {
    spec_u32_from_le_bytes(m.subrange(pos, pos + 4))
}

/// `m` with the 32-bit field at `pos` set to `v`.
pub open spec fn write_field(m: Seq<u8>, pos: int, v: u32) -> Seq<u8> {
    write_bytes(m, pos, spec_u32_to_le_bytes(v))
}

/// Writing a 32-bit field inside `m` keeps its length.
pub broadcast proof fn lemma_write_field_len(m: Seq<u8>, pos: int, v: u32)
    requires
        0 <= pos,
        pos + 4 <= m.len(),
    ensures
        #[trigger] write_field(m, pos, v).len() == m.len(),
{
    vstd::bytes::lemma_auto_spec_u32_to_from_le_bytes();
}

/// A 32-bit field holds its value: reading it gives back what was written
/// there, and every byte outside it stays as it was.
pub proof fn lemma_field_read_after_write(m: Seq<u8>, pos: int, v: u32)
    requires
        0 <= pos,
        pos + 4 <= m.len(),
    ensures
        write_field(m, pos, v).len() == m.len(),
        field_value(write_field(m, pos, v), pos) == v,
        forall|i: int|
            0 <= i < m.len() && !(pos <= i < pos + 4) ==> #[trigger] write_field(m, pos, v)[i]
                == m[i],
{
    vstd::bytes::lemma_auto_spec_u32_to_from_le_bytes();
    let w = write_field(m, pos, v);
    assert(w.subrange(pos, pos + 4) =~= spec_u32_to_le_bytes(v));
}

/// A signed 32-bit value survives the round trip through its bit pattern.
pub proof fn lemma_i32_round_trip(v: i32)
    ensures
        ((v as u32) as i32) == v,
{
    assert(((v as u32) as i32) == v) by (bit_vector);
}

/// A cell holds its value: reading a cell gives back what was written there,
/// and leaves every byte outside the cell as it was.
pub proof fn lemma_cell_read_after_write(m: Seq<u8>, pos: int, v: u64)
    requires
        0 <= pos,
        pos + 8 <= m.len(),
    ensures
        write_cell(m, pos, v).len() == m.len(),
        cell_value(write_cell(m, pos, v), pos) == v,
        forall|i: int|
            0 <= i < m.len() && !(pos <= i < pos + 8) ==> #[trigger] write_cell(m, pos, v)[i]
                == m[i],
{
    vstd::bytes::lemma_auto_spec_u64_to_from_le_bytes();
    let w = write_cell(m, pos, v);
    assert(cell_bytes(w, pos) =~= spec_u64_to_le_bytes(v));
}

/// Writing two cells that do not overlap: the second write leaves the
/// first cell as it was.
pub proof fn lemma_cell_write_disjoint(m: Seq<u8>, p: int, q: int, v: u64)
    requires
        0 <= p,
        p + 8 <= m.len(),
        0 <= q,
        q + 8 <= m.len(),
        p + 8 <= q || q + 8 <= p,
    ensures
        cell_value(write_cell(m, q, v), p) == cell_value(m, p),
{
    lemma_cell_read_after_write(m, q, v);
    assert(cell_bytes(write_cell(m, q, v), p) =~= cell_bytes(m, p));
}

/// A counted string holds its text: after the length cell and the bytes
/// are written, the cell reads back the length and the bytes after it read
/// back the text.
pub proof fn lemma_string_read_after_write(m: Seq<u8>, pos: int, s: Seq<u8>)
    requires
        0 <= pos,
        pos + 8 + s.len() <= m.len(),
        m.len() <= u64::MAX,
    ensures
        ({
            let w = write_bytes(write_cell(m, pos, s.len() as u64), pos + 8, s);
            &&& w.len() == m.len()
            &&& cell_value(w, pos) == s.len()
            &&& w.subrange(pos + 8, pos + 8 + s.len()) == s
        }),
{
    lemma_cell_read_after_write(m, pos, s.len() as u64);
    let c = write_cell(m, pos, s.len() as u64);
    let w = write_bytes(c, pos + 8, s);
    assert(cell_bytes(w, pos) =~= cell_bytes(c, pos));
    assert(w.subrange(pos + 8, pos + 8 + s.len()) =~= s);
}

/// Copy `src` into `dst` from `pos` on.
pub(crate) fn copy_into(dst: &mut Vec<u8>, pos: usize, src: &[u8])
    requires
        pos + src@.len() <= old(dst)@.len(),
    ensures
        final(dst)@ == write_bytes(old(dst)@, pos as int, src@),
        final(dst)@.len() == old(dst)@.len(),
{
    let n = dst.len();
    assert(pos + src.len() <= n);
    let mut i: usize = 0;
    while i < src.len()
        invariant
            i <= src@.len(),
            pos + src@.len() <= n,
            n == old(dst)@.len(),
            dst@ =~= old(dst)@.subrange(0, pos as int) + src@.take(i as int) + old(dst)@.subrange(
                pos + i,
                n as int,
            ),
        decreases src@.len() - i,
    {
        dst.set(pos + i, src[i]);
        proof {
            assert(src@.take(i + 1) =~= src@.take(i as int).push(src@[i as int]));
        }
        i = i + 1;
    }
    assert(src@.take(src@.len() as int) =~= src@);
}

/// The offsets of the system variables in data space.
pub struct SystemVariables {}

impl SystemVariables {
    /// Address of `BASE`, the radix used to read and print numbers.
    pub fn base_addr(&self) -> (r: usize)
        ensures
            r == 8,
    {
        8
    }

    /// Address of the vector to the compilation semantics of `,`.
    pub fn compile_comma_vector(&self) -> (r: usize)
        ensures
            r == 16,
    {
        16
    }

    /// Address of the vector that compiles integers.
    pub fn compile_integer_vector(&self) -> (r: usize)
        ensures
            r == 24,
    {
        24
    }

    /// Address of the vector that compiles variables.
    pub fn compile_var_vector(&self) -> (r: usize)
        ensures
            r == 32,
    {
        32
    }

    /// Address of the vector that compiles constants.
    pub fn compile_const_vector(&self) -> (r: usize)
        ensures
            r == 40,
    {
        40
    }

    /// Address of the vector that compiles floating-point constants.
    pub fn compile_fconst_vector(&self) -> (r: usize)
        ensures
            r == 48,
    {
        48
    }

    /// Address of the vector that compiles floating-point numbers.
    pub fn compile_float_vector(&self) -> (r: usize)
        ensures
            r == 56,
    {
        56
    }
}

/// The page size of the machine.
///
/// Calls `page_size::get`, which asks the operating system; nothing is
/// promised of the result.
#[verifier::external_body]
pub(crate) fn page_size_get() -> (r: usize) {
    page_size::get()
}

/// First address aligned to `align` (a power of two) at or after `pos`.
pub open spec fn aligned_to(pos: int, align: int) -> int {
    ((pos + align - 1) / align) * align
}

/// The number of bytes in `num_pages` pages of `page` bytes.
pub open spec fn pages_of(num_pages: nat, page: nat) -> nat {
    num_pages * page
}

/// The length of a counted string: at most 255.
pub open spec fn min_count(len: nat) -> nat {
    if len < 255 {
        len
    } else {
        255
    }
}

/// The byte-addressed data space.
pub struct DataSpace {
    inner: Vec<u8>,
    len: usize,
    system_variables: SystemVariables,
}

impl DataSpace {
    /// The bytes of the data space; its length is the capacity.
    pub closed spec fn mem(&self) -> Seq<u8> {
        self.inner@
    }

    /// The data-space pointer: the next free address.
    pub closed spec fn here_pos(&self) -> nat {
        self.len as nat
    }

    /// The system variables fit, the pointer is within the space, and every
    /// address fits in an `isize`.
    pub open spec fn wf(&self) -> bool {
        &&& SYSTEM_VARIABLES_SIZE <= self.mem().len() <= isize::MAX
        &&& self.here_pos() <= self.mem().len()
    }

    /// A data space as it is made: zeroed, the pointer just past the system
    /// variables, and `BASE` set to 10.
    pub open spec fn is_fresh(&self, cap: nat) -> bool {
        &&& self.wf()
        &&& self.mem().len() == cap
        &&& self.here_pos() == SYSTEM_VARIABLES_SIZE
        &&& cell_value(self.mem(), 8) == 10
        &&& forall|i: int| 0 <= i < cap && !(8 <= i < 16) ==> #[trigger] self.mem()[i] == 0
    }

    /// A data space of `cap` bytes.
    pub fn with_capacity(cap: usize) -> (r: Self)
        requires
            SYSTEM_VARIABLES_SIZE <= cap <= isize::MAX,
        ensures
            r.is_fresh(cap as nat),
    {
        let inner: Vec<u8> = vec![0u8; cap];
        let mut result = DataSpace {
            inner,
            len: SYSTEM_VARIABLES_SIZE,
            system_variables: SystemVariables {},
        };
        result.put_cell(8, 10);
        proof {
            lemma_cell_read_after_write(inner@, 8, 10);
        }
        result
    }

    /// `r` is what `with_page_size(num_pages, page_size)` gives: a fresh
    /// data space of that many bytes, or `None` when that size does not fit
    /// in an `isize` or is smaller than the system variables.
    pub open spec fn made_with_page_size(r: Option<Self>, num_pages: usize, page_size: usize) -> bool {
        &&& (r is Some <==> SYSTEM_VARIABLES_SIZE <= num_pages * page_size <= isize::MAX)
        &&& (r matches Some(d) ==> d.is_fresh(pages_of(num_pages as nat, page_size as nat)))
    }

    /// A data space of `num_pages` pages of `page_size` bytes; `None` when
    /// that size does not fit in an `isize` or is smaller than the system
    /// variables.
    pub fn with_page_size(num_pages: usize, page_size: usize) -> (r: Option<Self>)
        ensures
            r is Some <==> SYSTEM_VARIABLES_SIZE <= num_pages * page_size <= isize::MAX,
            r matches Some(d) ==> d.is_fresh(pages_of(num_pages as nat, page_size as nat)),
            Self::made_with_page_size(r, num_pages, page_size),
    {
        match num_pages.checked_mul(page_size) {
            Some(cap) => {
                if SYSTEM_VARIABLES_SIZE <= cap && cap <= isize::MAX as usize {
                    Some(Self::with_capacity(cap))
                } else {
                    None
                }
            },
            None => {
                assert(num_pages * page_size > usize::MAX);
                None
            },
        }
    }

    /// A data space of `num_pages` pages of the machine's page size; `None`
    /// when that size does not fit in an `isize` or is smaller than the
    /// system variables.
    pub fn new(num_pages: usize) -> (r: Option<Self>)
        ensures
            r matches Some(d) ==> d.is_fresh(d.mem().len()) && exists|p: nat|
                d.mem().len() == #[trigger] pages_of(num_pages as nat, p),
            exists|p: usize| #[trigger] Self::made_with_page_size(r, num_pages, p),
    {
        let ps = page_size_get();
        Self::with_page_size(num_pages, ps)
    }

    /// The system variables.
    pub fn system_variables(&self) -> (r: &SystemVariables) {
        &self.system_variables
    }

    /// Start address.
    pub fn start(&self) -> (r: usize)
        ensures
            r == 0,
    {
        0
    }

    /// Upper limit of addresses.
    pub fn limit(&self) -> (r: usize)
        ensures
            r == self.mem().len(),
    {
        self.inner.len()
    }

    /// Capacity.
    pub fn capacity(&self) -> (r: usize)
        ensures
            r == self.mem().len(),
    {
        self.inner.len()
    }

    /// Does the data space contain address `pos`?
    pub fn has(&self, pos: usize) -> (r: bool)
        ensures
            r == (pos < self.mem().len()),
    {
        pos < self.inner.len()
    }

    /// Next free space.
    pub fn here(&self) -> (r: usize)
        ensures
            r == self.here_pos(),
    {
        self.len
    }

    /// Set the next free space; ignored when `pos` lies beyond the limit
    /// (the limit itself is allowed).
    pub fn set_here(&mut self, pos: usize)
        requires
            old(self).wf(),
        ensures
            final(self).wf(),
            final(self).mem() == old(self).mem(),
            final(self).here_pos() == if pos <= old(self).mem().len() {
                pos as nat
            } else {
                old(self).here_pos()
            },
    {
        if pos <= self.inner.len() {
            self.len = pos;
        }
    }

    /// The byte at `addr`.
    pub fn get_u8(&self, addr: usize) -> (r: u8)
        requires
            addr < self.mem().len(),
        ensures
            r == self.mem()[addr as int],
    {
        self.inner[addr]
    }

    /// The cell at `addr`, as an unsigned number.
    pub fn get_usize(&self, addr: usize) -> (r: usize)
        requires
            addr + CELL <= self.mem().len(),
        ensures
            r == cell_value(self.mem(), addr as int) as usize,
    {
        self.get_cell(addr) as usize
    }

    /// The cell at `addr`, as a signed number.
    pub fn get_isize(&self, addr: usize) -> (r: isize)
        requires
            addr + CELL <= self.mem().len(),
        ensures
            r == cell_value(self.mem(), addr as int) as isize,
    {
        self.get_cell(addr) as isize
    }

    pub(crate) fn get_cell(&self, addr: usize) -> (r: u64)
        requires
            addr + CELL <= self.mem().len(),
        ensures
            r == cell_value(self.mem(), addr as int),
    {
        let n = self.inner.len();
        assert(addr + CELL <= n);
        let bytes = slice_subrange(self.inner.as_slice(), addr, addr + CELL);
        u64_from_le_bytes(bytes)
    }

    pub(crate) fn put_cell(&mut self, pos: usize, v: u64)
        requires
            pos + CELL <= old(self).mem().len(),
        ensures
            final(self).mem() == write_cell(old(self).mem(), pos as int, v),
            final(self).mem().len() == old(self).mem().len(),
            final(self).here_pos() == old(self).here_pos(),
    {
        let bytes = u64_to_le_bytes(v);
        copy_into(&mut self.inner, pos, bytes.as_slice());
        proof {
            lemma_cell_read_after_write(old(self).mem(), pos as int, v);
        }
    }

    /// Store byte `v` at `pos`.
    pub fn put_u8(&mut self, v: u8, pos: usize)
        requires
            old(self).wf(),
            pos < old(self).mem().len(),
        ensures
            final(self).wf(),
            final(self).mem().len() == old(self).mem().len(),
            final(self).mem() == old(self).mem().update(pos as int, v),
            final(self).here_pos() == old(self).here_pos(),
    {
        self.inner.set(pos, v);
    }

    /// Store the unsigned cell `v` at `pos`.
    pub fn put_usize(&mut self, v: usize, pos: usize)
        requires
            old(self).wf(),
            pos + CELL <= old(self).mem().len(),
        ensures
            final(self).wf(),
            final(self).mem().len() == old(self).mem().len(),
            final(self).mem() == write_cell(old(self).mem(), pos as int, v as u64),
            final(self).here_pos() == old(self).here_pos(),
    {
        self.put_cell(pos, v as u64);
    }

    /// Store the signed cell `v` at `pos`.
    pub fn put_isize(&mut self, v: isize, pos: usize)
        requires
            old(self).wf(),
            pos + CELL <= old(self).mem().len(),
        ensures
            final(self).wf(),
            final(self).mem().len() == old(self).mem().len(),
            final(self).mem() == write_cell(old(self).mem(), pos as int, v as u64),
            final(self).here_pos() == old(self).here_pos(),
    {
        self.put_cell(pos, v as u64);
    }

    /// Store byte `v` at the data-space pointer and advance it by one.
    pub fn compile_u8(&mut self, v: u8)
        requires
            old(self).wf(),
            old(self).here_pos() < old(self).mem().len(),
        ensures
            final(self).wf(),
            final(self).mem().len() == old(self).mem().len(),
            final(self).mem() == old(self).mem().update(old(self).here_pos() as int, v),
            final(self).here_pos() == old(self).here_pos() + 1,
    {
        let here = self.len;
        self.put_u8(v, here);
        self.len = here + 1;
    }

    /// Store the unsigned cell `v` at the data-space pointer and advance it by
    /// a cell.
    pub fn compile_usize(&mut self, v: usize)
        requires
            old(self).wf(),
            old(self).here_pos() + CELL <= old(self).mem().len(),
        ensures
            final(self).wf(),
            final(self).mem().len() == old(self).mem().len(),
            final(self).mem() == write_cell(
                old(self).mem(),
                old(self).here_pos() as int,
                v as u64,
            ),
            final(self).here_pos() == old(self).here_pos() + CELL,
    {
        let here = self.len;
        self.put_usize(v, here);
        self.len = here + CELL;
    }

    /// Store the signed cell `v` at the data-space pointer and advance it by a
    /// cell.
    pub fn compile_isize(&mut self, v: isize)
        requires
            old(self).wf(),
            old(self).here_pos() + CELL <= old(self).mem().len(),
        ensures
            final(self).wf(),
            final(self).mem().len() == old(self).mem().len(),
            final(self).mem() == write_cell(
                old(self).mem(),
                old(self).here_pos() as int,
                v as u64,
            ),
            final(self).here_pos() == old(self).here_pos() + CELL,
    {
        let here = self.len;
        self.put_isize(v, here);
        self.len = here + CELL;
    }

    /// Compile the offset from the end of the new cell to address `f`.
    pub fn compile_relative(&mut self, f: usize)
        requires
            old(self).wf(),
            old(self).here_pos() + CELL <= old(self).mem().len(),
        ensures
            final(self).wf(),
            final(self).mem().len() == old(self).mem().len(),
            final(self).mem() == write_cell(
                old(self).mem(),
                old(self).here_pos() as int,
                f.wrapping_sub((old(self).here_pos() + CELL) as usize) as u64,
            ),
            final(self).here_pos() == old(self).here_pos() + CELL,
    {
        let there = self.len + CELL;
        let diff = f.wrapping_sub(there);
        self.compile_usize(diff);
    }

    /// Store at `pos` the offset from the end of that cell to address `f`.
    pub fn put_relative(&mut self, f: usize, pos: usize)
        requires
            old(self).wf(),
            pos + CELL <= old(self).mem().len(),
        ensures
            final(self).wf(),
            final(self).mem().len() == old(self).mem().len(),
            final(self).mem() == write_cell(
                old(self).mem(),
                pos as int,
                f.wrapping_sub((pos + CELL) as usize) as u64,
            ),
            final(self).here_pos() == old(self).here_pos(),
    {
        let there = pos + CELL;
        let diff = f.wrapping_sub(there);
        self.put_usize(diff, pos);
    }

    /// Put the counted string `s` at `pos`: a count byte, then at most 255
    /// bytes of `s`.
    pub fn put_cstr(&mut self, s: &str, pos: usize)
        requires
            old(self).wf(),
            pos + min_count(s.spec_bytes().len()) + CELL <= old(self).mem().len(),
        ensures
            final(self).wf(),
            final(self).here_pos() == old(self).here_pos(),
            final(self).mem() == write_bytes(
                old(self).mem(),
                pos as int,
                seq![min_count(s.spec_bytes().len()) as u8] + s.spec_bytes().take(
                    min_count(s.spec_bytes().len()) as int,
                ),
            ),
    {
        let bytes = s.as_bytes();
        let len = if bytes.len() < 255 {
            bytes.len()
        } else {
            255
        };
        let ghost m0 = self.mem();
        let ghost cs = seq![len as u8] + bytes@.take(len as int);
        self.inner.set(pos, len as u8);
        let mut i: usize = 0;
        while i < len
            invariant
                i <= len <= 255,
                len <= bytes@.len(),
                pos + len + CELL <= m0.len(),
                cs == seq![len as u8] + bytes@.take(len as int),
                self.len == old(self).len,
                self.len <= m0.len(),
                SYSTEM_VARIABLES_SIZE <= m0.len() <= isize::MAX,
                self.inner@ =~= m0.subrange(0, pos as int) + cs.take(i + 1) + m0.subrange(
                    pos + i + 1,
                    m0.len() as int,
                ),
            decreases len - i,
        {
            self.inner.set(pos + 1 + i, bytes[i]);
            proof {
                assert(cs.take(i + 2) =~= cs.take(i + 1).push(bytes@[i as int]));
            }
            i = i + 1;
        }
        assert(cs.take(len + 1) =~= cs);
    }

    /// Compile the string `s` with its length in the cell before it; the
    /// result is the address of that cell.
    pub fn compile_str(&mut self, s: &str) -> (r: usize)
        requires
            old(self).wf(),
            old(self).here_pos() + s.spec_bytes().len() + CELL <= old(self).mem().len(),
        ensures
            final(self).wf(),
            r == old(self).here_pos(),
            final(self).mem() == write_bytes(
                write_cell(old(self).mem(), r as int, s.spec_bytes().len() as u64),
                r + CELL,
                s.spec_bytes(),
            ),
            final(self).here_pos() == old(self).here_pos() + CELL + s.spec_bytes().len(),
    {
        let bytes = s.as_bytes();
        let here = self.len;
        let len = bytes.len();
        self.compile_usize(len);
        let ghost m1 = self.mem();
        let mut i: usize = 0;
        while i < len
            invariant
                i <= len,
                len == bytes@.len(),
                here + CELL + len <= m1.len(),
                self.wf(),
                self.mem().len() == m1.len(),
                self.here_pos() == here + CELL + i,
                self.mem() =~= m1.subrange(0, here + CELL) + bytes@.take(i as int) + m1.subrange(
                    here + CELL + i,
                    m1.len() as int,
                ),
            decreases len - i,
        {
            self.compile_u8(bytes[i]);
            proof {
                assert(bytes@.take(i + 1) =~= bytes@.take(i as int).push(bytes@[i as int]));
            }
            i = i + 1;
        }
        assert(bytes@.take(len as int) =~= bytes@);
        here
    }

    /// The counted string at `addr`: the bytes after the length cell.
    pub fn get_str(&self, addr: usize) -> (r: &[u8])
        requires
            addr + CELL + cell_value(self.mem(), addr as int) <= self.mem().len(),
        ensures
            r@ == self.mem().subrange(
                addr + CELL,
                addr + CELL + cell_value(self.mem(), addr as int),
            ),
    {
        let n = self.inner.len();
        let len = self.get_cell(addr);
        assert(addr + CELL + len <= n);
        self.buffer_from_raw_parts(addr + CELL, len as usize)
    }

    /// The `len` bytes from `addr` on.
    pub fn buffer_from_raw_parts(&self, addr: usize, len: usize) -> (r: &[u8])
        requires
            addr + len <= self.mem().len(),
        ensures
            r@ == self.mem().subrange(addr as int, addr + len),
    {
        let n = self.inner.len();
        assert(addr + len <= n);
        slice_subrange(self.inner.as_slice(), addr, addr + len)
    }

    /// First cell-aligned address at or after `pos`.
    pub fn aligned(pos: usize) -> (r: usize)
        requires
            pos + CELL - 1 <= usize::MAX,
        ensures
            r == aligned_to(pos as int, CELL as int),
    {
        (pos + (CELL - 1)) / CELL * CELL
    }

    /// If the data-space pointer is not aligned, reserve enough space to
    /// align it.
    pub fn align(&mut self)
        requires
            old(self).wf(),
        ensures
            final(self).wf(),
            final(self).mem() == old(self).mem(),
            final(self).here_pos() == if aligned_to(old(self).here_pos() as int, CELL as int)
                <= old(self).mem().len() {
                aligned_to(old(self).here_pos() as int, CELL as int) as nat
            } else {
                old(self).here_pos()
            },
    {
        let here = self.len;
        self.set_here(Self::aligned(here));
    }

    /// First float-aligned address at or after `pos`.
    pub fn aligned_f64(pos: usize) -> (r: usize)
        requires
            pos + 7 <= usize::MAX,
        ensures
            r == aligned_to(pos as int, 8),
    {
        (pos + 7) / 8 * 8
    }

    /// If the data-space pointer is not float-aligned, reserve enough space
    /// to align it.
    pub fn align_f64(&mut self)
        requires
            old(self).wf(),
        ensures
            final(self).wf(),
            final(self).mem() == old(self).mem(),
            final(self).here_pos() == if aligned_to(old(self).here_pos() as int, 8)
                <= old(self).mem().len() {
                aligned_to(old(self).here_pos() as int, 8) as nat
            } else {
                old(self).here_pos()
            },
    {
        let here = self.len;
        self.set_here(Self::aligned_f64(here));
    }

    /// First address aligned to a 16-byte boundary at or after `pos`.
    pub fn aligned_16(pos: usize) -> (r: usize)
        requires
            pos + 15 <= usize::MAX,
        ensures
            r == aligned_to(pos as int, 16),
    {
        (pos + 15) / 16 * 16
    }

    /// If the data-space pointer is not aligned to 16 bytes, reserve enough
    /// space to align it.
    pub fn align_16(&mut self)
        requires
            old(self).wf(),
        ensures
            final(self).wf(),
            final(self).mem() == old(self).mem(),
            final(self).here_pos() == if aligned_to(old(self).here_pos() as int, 16)
                <= old(self).mem().len() {
                aligned_to(old(self).here_pos() as int, 16) as nat
            } else {
                old(self).here_pos()
            },
    {
        let here = self.len;
        self.set_here(Self::aligned_16(here));
    }

    /// Move the data-space pointer by `v` bytes; a move that would leave the
    /// space is ignored.
    pub fn allot(&mut self, v: isize)
        requires
            old(self).wf(),
            old(self).here_pos() + v <= isize::MAX,
        ensures
            final(self).wf(),
            final(self).mem() == old(self).mem(),
            final(self).here_pos() == if 0 <= old(self).here_pos() + v <= old(self).mem().len() {
                (old(self).here_pos() + v) as nat
            } else {
                old(self).here_pos()
            },
    {
        let target = self.len as isize + v;
        if target >= 0 {
            self.set_here(target as usize);
        }
    }

    /// Move the data-space pointer back (or forward) to `pos`.
    pub fn truncate(&mut self, pos: usize)
        requires
            old(self).wf(),
        ensures
            final(self).wf(),
            final(self).mem() == old(self).mem(),
            final(self).here_pos() == if pos <= old(self).mem().len() {
                pos as nat
            } else {
                old(self).here_pos()
            },
    {
        self.set_here(pos);
    }

    /// The 32-bit field at `addr`, unsigned.
    pub fn get_u32(&self, addr: usize) -> (r: u32)
        requires
            addr + 4 <= self.mem().len(),
        ensures
            r == field_value(self.mem(), addr as int),
    {
        let n = self.inner.len();
        assert(addr + 4 <= n);
        let bytes = slice_subrange(self.inner.as_slice(), addr, addr + 4);
        u32_from_le_bytes(bytes)
    }

    /// The 32-bit field at `addr`, signed.
    pub fn get_i32(&self, addr: usize) -> (r: i32)
        requires
            addr + 4 <= self.mem().len(),
        ensures
            r == field_value(self.mem(), addr as int) as i32,
    {
        self.get_u32(addr) as i32
    }

    /// Store the 32-bit field `v` at `pos`.
    pub fn put_u32(&mut self, v: u32, pos: usize)
        requires
            old(self).wf(),
            pos + 4 <= old(self).mem().len(),
        ensures
            final(self).wf(),
            final(self).mem().len() == old(self).mem().len(),
            final(self).mem() == write_field(old(self).mem(), pos as int, v),
            final(self).here_pos() == old(self).here_pos(),
    {
        let bytes = u32_to_le_bytes(v);
        copy_into(&mut self.inner, pos, bytes.as_slice());
    }

    /// Store the signed 32-bit field `v` at `pos`.
    pub fn put_i32(&mut self, v: i32, pos: usize)
        requires
            old(self).wf(),
            pos + 4 <= old(self).mem().len(),
        ensures
            final(self).wf(),
            final(self).mem().len() == old(self).mem().len(),
            final(self).mem() == write_field(old(self).mem(), pos as int, v as u32),
            final(self).here_pos() == old(self).here_pos(),
    {
        self.put_u32(v as u32, pos);
    }

    /// Store the 32-bit field `v` at the data-space pointer and advance it.
    pub fn compile_u32(&mut self, v: u32)
        requires
            old(self).wf(),
            old(self).here_pos() + 4 <= old(self).mem().len(),
        ensures
            final(self).wf(),
            final(self).mem().len() == old(self).mem().len(),
            final(self).mem() == write_field(old(self).mem(), old(self).here_pos() as int, v),
            final(self).here_pos() == old(self).here_pos() + 4,
    {
        let here = self.len;
        self.put_u32(v, here);
        self.len = here + 4;
    }

    /// Store the signed 32-bit field `v` at the data-space pointer and
    /// advance it.
    pub fn compile_i32(&mut self, v: i32)
        requires
            old(self).wf(),
            old(self).here_pos() + 4 <= old(self).mem().len(),
        ensures
            final(self).wf(),
            final(self).mem().len() == old(self).mem().len(),
            final(self).mem() == write_field(
                old(self).mem(),
                old(self).here_pos() as int,
                v as u32,
            ),
            final(self).here_pos() == old(self).here_pos() + 4,
    {
        let here = self.len;
        self.put_i32(v, here);
        self.len = here + 4;
    }
}

} // verus!
