//! Code space: a byte buffer into which machine code is compiled.
//!
//! Addresses are offsets from the start of the buffer. The compile pointer
//! may be moved anywhere by `align`, `allot` and `truncate`; compiling
//! requires it to leave room in the buffer.

use vstd::bytes::{spec_u32_to_le_bytes, u32_to_le_bytes};
use vstd::prelude::*;
use vstd::slice::slice_subrange;
use vstd::string::StringSliceAdditionalSpecFns;

use crate::memory::{copy_into, write_bytes};

verus! {

/// The size of a page of code space.
pub const PAGE_SIZE: usize = 4096;

/// The byte that a fresh code space is filled with: the x86 `RET`
/// instruction.
pub const FILL_BYTE: u8 = 0xc3;

/// A buffer for compiled machine code.
pub struct CodeSpace {
    inner: Vec<u8>,
    cap: usize,
    len: usize,
}

impl CodeSpace {
    /// The bytes of the code space.
    pub closed spec fn code(&self) -> Seq<u8> {
        self.inner@
    }

    /// The compile pointer.
    pub closed spec fn len_view(&self) -> usize {
        self.len
    }

    /// The capacity of the code space.
    pub closed spec fn cap_view(&self) -> usize {
        self.cap
    }

    /// The capacity is the length of the buffer.
    pub open spec fn wf(&self) -> bool {
        self.code().len() == self.cap_view()
    }

    /// A code space of `num_pages` pages, filled with `RET`.
    pub fn new(num_pages: usize) -> (r: CodeSpace)
        requires
            num_pages * PAGE_SIZE <= isize::MAX,
        ensures
            r.wf(),
            r.cap_view() == num_pages * PAGE_SIZE,
            r.len_view() == 0,
            r.code() == Seq::new((num_pages * PAGE_SIZE) as nat, |i: int| FILL_BYTE),
    {
        let size = num_pages * PAGE_SIZE;
        let inner: Vec<u8> = vec![FILL_BYTE; size];
        assert(inner@ =~= Seq::new(size as nat, |i: int| FILL_BYTE));
        CodeSpace { inner, cap: size, len: 0 }
    }

    /// Capacity.
    pub fn capacity(&self) -> (r: usize)
        ensures
            r == self.cap_view(),
    {
        self.cap
    }

    /// Length of the compiled code: the compile pointer.
    pub fn len(&self) -> (r: usize)
        ensures
            r == self.len_view(),
    {
        self.len
    }

    /// Does the code space contain address `pos`?
    pub fn has(&self, pos: usize) -> (r: bool)
        ensures
            r == (pos < self.cap_view()),
    {
        pos < self.cap
    }

    /// The byte at `addr`.
    pub fn get_u8(&self, addr: usize) -> (r: u8)
        requires
            self.wf(),
            addr < self.cap_view(),
        ensures
            r == self.code()[addr as int],
    {
        self.inner[addr]
    }

    /// The `len` bytes from `addr` on.
    pub fn get_str(&self, addr: usize, len: usize) -> (r: &[u8])
        requires
            self.wf(),
            addr + len <= self.cap_view(),
        ensures
            r@ == self.code().subrange(addr as int, addr + len),
    {
        slice_subrange(self.inner.as_slice(), addr, addr + len)
    }

    /// Store byte `v` at `pos`.
    pub fn put_u8(&mut self, v: u8, pos: usize)
        requires
            old(self).wf(),
            pos < old(self).cap_view(),
        ensures
            final(self).wf(),
            final(self).code() == old(self).code().update(pos as int, v),
            final(self).len_view() == old(self).len_view(),
            final(self).cap_view() == old(self).cap_view(),
    {
        self.inner.set(pos, v);
    }

    /// Store `v` little-endian at `pos`.
    pub fn put_u32(&mut self, v: u32, pos: usize)
        requires
            old(self).wf(),
            pos + 4 <= old(self).cap_view(),
        ensures
            final(self).wf(),
            final(self).code() == write_bytes(old(self).code(), pos as int, spec_u32_to_le_bytes(v)),
            final(self).len_view() == old(self).len_view(),
            final(self).cap_view() == old(self).cap_view(),
    {
        let bytes = u32_to_le_bytes(v);
        copy_into(&mut self.inner, pos, bytes.as_slice());
    }

    /// Store `v` little-endian at `pos`.
    pub fn put_i32(&mut self, v: i32, pos: usize)
        requires
            old(self).wf(),
            pos + 4 <= old(self).cap_view(),
        ensures
            final(self).wf(),
            final(self).code() == write_bytes(
                old(self).code(),
                pos as int,
                spec_u32_to_le_bytes(v as u32),
            ),
            final(self).len_view() == old(self).len_view(),
            final(self).cap_view() == old(self).cap_view(),
    {
        self.put_u32(v as u32, pos);
    }

    /// Compile byte `v`.
    pub fn compile_u8(&mut self, v: u8)
        requires
            old(self).wf(),
            old(self).len_view() + 1 <= old(self).cap_view(),
        ensures
            final(self).wf(),
            final(self).code() == old(self).code().update(old(self).len_view() as int, v),
            final(self).len_view() == old(self).len_view() + 1,
            final(self).cap_view() == old(self).cap_view(),
    {
        let here = self.here();
        self.put_u8(v, here);
        self.len = self.len + 1;
    }

    /// Compile `v`, little-endian.
    pub fn compile_u32(&mut self, v: u32)
        requires
            old(self).wf(),
            old(self).len_view() + 4 <= old(self).cap_view(),
        ensures
            final(self).wf(),
            final(self).code() == write_bytes(
                old(self).code(),
                old(self).len_view() as int,
                spec_u32_to_le_bytes(v),
            ),
            final(self).len_view() == old(self).len_view() + 4,
            final(self).cap_view() == old(self).cap_view(),
    {
        let here = self.here();
        self.put_u32(v, here);
        self.len = self.len + 4;
    }

    /// Compile `v`, little-endian.
    pub fn compile_i32(&mut self, v: i32)
        requires
            old(self).wf(),
            old(self).len_view() + 4 <= old(self).cap_view(),
        ensures
            final(self).wf(),
            final(self).code() == write_bytes(
                old(self).code(),
                old(self).len_view() as int,
                spec_u32_to_le_bytes(v as u32),
            ),
            final(self).len_view() == old(self).len_view() + 4,
            final(self).cap_view() == old(self).cap_view(),
    {
        let here = self.here();
        self.put_i32(v, here);
        self.len = self.len + 4;
    }

    /// Compile the bytes of `s`.
    pub fn compile_str(&mut self, s: &str)
        requires
            old(self).wf(),
            old(self).len_view() + s.spec_bytes().len() <= old(self).cap_view(),
        ensures
            final(self).wf(),
            final(self).code() == write_bytes(
                old(self).code(),
                old(self).len_view() as int,
                s.spec_bytes(),
            ),
            final(self).code().len() == old(self).code().len(),
            forall|i: int|
                0 <= i < s.spec_bytes().len() ==> #[trigger] final(self).code()[old(self).len_view() + i]
                    == s.spec_bytes()[i],
            forall|j: int|
                0 <= j < old(self).code().len() && !(old(self).len_view() <= j < old(self).len_view()
                    + s.spec_bytes().len()) ==> #[trigger] final(self).code()[j] == old(self).code()[j],
            final(self).len_view() == old(self).len_view() + s.spec_bytes().len(),
            final(self).cap_view() == old(self).cap_view(),
    {
        let bytes = s.as_bytes();
        let here = self.len;
        copy_into(&mut self.inner, here, bytes);
        self.len = here + bytes.len();
    }

    /// Compile the 32-bit offset from the end of the new field to address
    /// `f`.
    pub fn compile_relative(&mut self, f: usize)
        requires
            old(self).wf(),
            old(self).len_view() + 4 <= old(self).cap_view(),
        ensures
            final(self).wf(),
            final(self).code() == write_bytes(
                old(self).code(),
                old(self).len_view() as int,
                spec_u32_to_le_bytes(f.wrapping_sub((old(self).len_view() + 4) as usize) as u32),
            ),
            final(self).len_view() == old(self).len_view() + 4,
            final(self).cap_view() == old(self).cap_view(),
    {
        let there = self.here() + 4;
        let diff = f.wrapping_sub(there) as u32;
        self.compile_u32(diff);
    }

    /// The compile pointer.
    pub fn here(&mut self) -> (r: usize)
        ensures
            r == old(self).len_view(),
            *final(self) == *old(self),
    {
        self.len
    }

    /// If the compile pointer is not aligned to 4 bytes, reserve enough
    /// space to align it.
    pub fn align(&mut self)
        requires
            old(self).len_view() + 3 <= usize::MAX,
        ensures
            final(self).code() == old(self).code(),
            final(self).cap_view() == old(self).cap_view(),
            final(self).wf() == old(self).wf(),
            final(self).len_view() == (old(self).len_view() + 3) / 4 * 4,
    {
        self.len = (self.len + 3) / 4 * 4;
    }

    /// Move the compile pointer by `v` bytes, wrapping as the address
    /// arithmetic of the machine does.
    pub fn allot(&mut self, v: isize)
        requires
            isize::MIN <= (old(self).len_view() as isize) + v <= isize::MAX,
        ensures
            final(self).code() == old(self).code(),
            final(self).cap_view() == old(self).cap_view(),
            final(self).wf() == old(self).wf(),
            final(self).len_view() == ((old(self).len_view() as isize) + v) as usize,
    {
        let len = (self.len() as isize + v) as usize;
        self.len = len;
    }

    /// Set the compile pointer to `i`.
    pub fn truncate(&mut self, i: usize)
        ensures
            final(self).code() == old(self).code(),
            final(self).cap_view() == old(self).cap_view(),
            final(self).wf() == old(self).wf(),
            final(self).len_view() == i,
    {
        self.len = i;
    }
}

} // verus!
