//! Memory of a just-in-time compiler: a byte buffer in which word headers
//! are laid down and linked into a dictionary.
//!
//! A word header takes `JIT_WORD_SIZE` bytes at an aligned position; each
//! header links to what was the last word when it was laid down, so that
//! `find` can walk the dictionary from the last word back. The walk ends at
//! a link that is 0 or that is not the position of an older header.

use vstd::bytes::{spec_u32_to_le_bytes, u32_from_le_bytes, u32_to_le_bytes};
use vstd::prelude::*;
use vstd::slice::slice_subrange;
use vstd::string::StringSliceAdditionalSpecFns;

use crate::memory::{copy_into, field_value, write_bytes};

verus! {

/// The size of a page of memory.
pub const JIT_PAGE_SIZE: usize = 4096;

/// The bytes that a word header takes.
pub const JIT_WORD_SIZE: usize = 40;

/// The alignment of word headers and of the first free byte.
pub const JIT_ALIGN: usize = 8;

/// The byte that fresh memory is filled with: the x86 `INT3` instruction.
pub const JIT_FILL_BYTE: u8 = 0xcc;

/// A word header: name, flags, data field and action.
#[derive(Clone, Copy)]
pub struct JitWord<A> {
    pub link: usize,
    pub symbol: usize,
    pub is_immediate: bool,
    pub is_compile_only: bool,
    pub hidden: bool,
    pub dfa: usize,
    pub action: A,
}

impl<A: Copy> JitWord<A> {
    /// A visible, ordinary word named `symbol`, not yet linked.
    pub fn new(symbol: usize, action: A) -> (r: JitWord<A>)
        ensures
            r == (JitWord {
                link: 0,
                symbol,
                is_immediate: false,
                is_compile_only: false,
                hidden: false,
                dfa: 0,
                action,
            }),
    {
        JitWord {
            link: 0,
            symbol: symbol,
            is_immediate: false,
            is_compile_only: false,
            hidden: false,
            dfa: 0,
            action: action,
        }
    }

    /// The header defined before this one, 0 if none.
    pub fn link(&self) -> (r: usize)
        ensures
            r == self.link,
    {
        self.link
    }

    /// The name of the word.
    pub fn symbol(&self) -> (r: usize)
        ensures
            r == self.symbol,
    {
        self.symbol
    }

    /// Is the word executed even while compiling?
    pub fn is_immediate(&self) -> (r: bool)
        ensures
            r == self.is_immediate,
    {
        self.is_immediate
    }

    pub fn set_immediate(&mut self, flag: bool)
        ensures
            *final(self) == (JitWord { is_immediate: flag, ..*old(self) }),
    {
        self.is_immediate = flag;
    }

    /// May the word only be used while compiling?
    pub fn is_compile_only(&self) -> (r: bool)
        ensures
            r == self.is_compile_only,
    {
        self.is_compile_only
    }

    pub fn set_compile_only(&mut self, flag: bool)
        ensures
            *final(self) == (JitWord { is_compile_only: flag, ..*old(self) }),
    {
        self.is_compile_only = flag;
    }

    /// Is the word hidden from `find`?
    pub fn is_hidden(&self) -> (r: bool)
        ensures
            r == self.hidden,
    {
        self.hidden
    }

    pub fn set_hidden(&mut self, flag: bool)
        ensures
            *final(self) == (JitWord { hidden: flag, ..*old(self) }),
    {
        self.hidden = flag;
    }

    /// The data field address of the word.
    pub fn dfa(&self) -> (r: usize)
        ensures
            r == self.dfa,
    {
        self.dfa
    }

    /// The action of the word.
    pub fn action(&self) -> (r: A)
        ensures
            r == self.action,
    {
        self.action
    }
}

/// The memory of a just-in-time compiler.
pub struct JitMemory<A> {
    inner: Vec<u8>,
    words: Vec<(usize, JitWord<A>)>,
    cap: usize,
    len: usize,
    last: usize,
}

impl<A: Copy> JitMemory<A> {
    /// The bytes of the memory.
    pub closed spec fn bytes(&self) -> Seq<u8> {
        self.inner@
    }

    /// The word headers and their positions, oldest first.
    pub closed spec fn headers(&self) -> Seq<(usize, JitWord<A>)> {
        self.words@
    }

    /// The first free position.
    pub closed spec fn len_view(&self) -> usize {
        self.len
    }

    /// The capacity.
    pub closed spec fn cap_view(&self) -> usize {
        self.cap
    }

    /// The position of the last word of the current word list, 0 if none.
    pub closed spec fn last_view(&self) -> usize {
        self.last
    }

    /// The index in `headers` of the header at position `p`.
    pub open spec fn index_of(&self, p: usize) -> int {
        header_index_of(self.headers(), p)
    }

    /// `p` is the position of a header.
    pub open spec fn is_header(&self, p: usize) -> bool {
        is_header_in(self.headers(), p)
    }

    /// The bytes fill the capacity, which fits in an `isize`, and no two
    /// headers lie at the same position.
    pub open spec fn wf(&self) -> bool {
        &&& self.bytes().len() == self.cap_view()
        &&& self.cap_view() <= isize::MAX
        &&& headers_ok(self.headers())
    }

    /// What `find(symbol)` gives: the first visible header named `symbol`
    /// on the chain of links from the last word, passing at most as many
    /// headers as there are.
    pub open spec fn find_spec(&self, symbol: usize) -> Option<usize> {
        find_at(self.headers(), self.last_view(), symbol, self.headers().len())
    }

    /// A memory of `num_pages` pages filled with `INT3`; the first cell is
    /// reserved.
    pub fn new(num_pages: usize) -> (r: JitMemory<A>)
        requires
            num_pages * JIT_PAGE_SIZE <= isize::MAX,
        ensures
            r.wf(),
            r.cap_view() == num_pages * JIT_PAGE_SIZE,
            r.len_view() == JIT_ALIGN,
            r.last_view() == 0,
            r.headers().len() == 0,
            r.bytes() == Seq::new((num_pages * JIT_PAGE_SIZE) as nat, |i: int| JIT_FILL_BYTE),
    {
        let size = num_pages * JIT_PAGE_SIZE;
        let inner: Vec<u8> = vec![JIT_FILL_BYTE; size];
        assert(inner@ =~= Seq::new(size as nat, |i: int| JIT_FILL_BYTE));
        JitMemory { inner, words: Vec::new(), cap: size, len: JIT_ALIGN, last: 0 }
    }

    /// The first free position.
    pub fn len(&self) -> (r: usize)
        ensures
            r == self.len_view(),
    {
        self.len
    }

    /// Nothing was compiled after the reserved first cell.
    pub fn is_empty(&self) -> (r: bool)
        ensures
            r == (self.len_view() == JIT_ALIGN),
    {
        self.len == JIT_ALIGN
    }

    /// The position of the last word of the current word list.
    pub fn last(&self) -> (r: usize)
        ensures
            r == self.last_view(),
    {
        self.last
    }

    /// The byte at `addr`.
    pub fn get_u8(&self, addr: usize) -> (r: u8)
        requires
            self.wf(),
            addr < self.cap_view(),
        ensures
            r == self.bytes()[addr as int],
    {
        self.inner[addr]
    }

    /// The 32-bit field at `addr`, little-endian, unsigned.
    pub fn get_u32(&self, addr: usize) -> (r: u32)
        requires
            self.wf(),
            addr + 4 <= self.cap_view(),
        ensures
            r == field_value(self.bytes(), addr as int),
    {
        let bytes = slice_subrange(self.inner.as_slice(), addr, addr + 4);
        u32_from_le_bytes(bytes)
    }

    /// The 32-bit field at `addr`, little-endian, signed.
    pub fn get_i32(&self, addr: usize) -> (r: i32)
        requires
            self.wf(),
            addr + 4 <= self.cap_view(),
        ensures
            r == field_value(self.bytes(), addr as int) as i32,
    {
        self.get_u32(addr) as i32
    }

    /// The `len` bytes from `addr` on.
    pub fn get_str(&self, addr: usize, len: usize) -> (r: &[u8])
        requires
            self.wf(),
            addr + len <= self.cap_view(),
        ensures
            r@ == self.bytes().subrange(addr as int, addr + len),
    {
        slice_subrange(self.inner.as_slice(), addr, addr + len)
    }

    /// Make `addr` the last word of the current word list.
    pub fn set_last(&mut self, addr: usize)
        requires
            old(self).wf(),
        ensures
            final(self).wf(),
            final(self).last_view() == addr,
            final(self).bytes() == old(self).bytes(),
            final(self).headers() == old(self).headers(),
            final(self).len_view() == old(self).len_view(),
            final(self).cap_view() == old(self).cap_view(),
    {
        self.last = addr;
    }

    /// The index of the header at position `pos`.
    fn header_index(&self, pos: usize) -> (r: usize)
        requires
            self.wf(),
            self.is_header(pos),
        ensures
            r < self.headers().len(),
            self.headers()[r as int].0 == pos,
            r as int == self.index_of(pos),
    {
        let mut k: usize = 0;
        while k < self.words.len()
            invariant
                self.wf(),
                self.is_header(pos),
                k <= self.words@.len(),
                forall|i: int| 0 <= i < k ==> #[trigger] self.words@[i].0 != pos,
            decreases self.words@.len() - k,
        {
            if self.words[k].0 == pos {
                proof {
                    let c = self.index_of(pos);
                    assert(self.headers()[k as int].0 == pos);
                    assert(c == k);
                }
                return k;
            }
            k = k + 1;
        }
        assert(false);
        0
    }

    /// The header at position `pos`.
    pub fn word(&self, pos: usize) -> (r: &JitWord<A>)
        requires
            self.wf(),
            self.is_header(pos),
        ensures
            *r == self.headers()[self.index_of(pos)].1,
    {
        let k = self.header_index(pos);
        &self.words[k].1
    }

    /// The header at position `pos`, to be changed in place; its position
    /// stays.
    pub fn mut_word(&mut self, pos: usize) -> (r: &mut JitWord<A>)
        requires
            old(self).wf(),
            old(self).is_header(pos),
        ensures
            *r == old(self).headers()[old(self).index_of(pos)].1,
            final(self).wf(),
            final(self).headers() == old(self).headers().update(
                old(self).index_of(pos),
                (pos, *final(r)),
            ),
            final(self).bytes() == old(self).bytes(),
            final(self).len_view() == old(self).len_view(),
            final(self).cap_view() == old(self).cap_view(),
            final(self).last_view() == old(self).last_view(),
    {
        let k = self.header_index(pos);
        &mut self.words[k].1
    }

    /// Replace the header at position `pos` by `w` (the word stays where
    /// it is, linked as before).
    pub fn set_word(&mut self, pos: usize, w: JitWord<A>)
        requires
            old(self).wf(),
            old(self).is_header(pos),
        ensures
            final(self).wf(),
            final(self).headers() == old(self).headers().update(
                old(self).index_of(pos),
                (pos, JitWord { link: old(self).headers()[old(self).index_of(pos)].1.link, ..w }),
            ),
            final(self).bytes() == old(self).bytes(),
            final(self).len_view() == old(self).len_view(),
            final(self).cap_view() == old(self).cap_view(),
            final(self).last_view() == old(self).last_view(),
    {
        let k = self.header_index(pos);
        let link = self.words[k].1.link;
        let nw = JitWord { link: link, ..w };
        let ghost before = self.words@;
        self.words.set(k, (pos, nw));
        proof {
            assert forall|j: int, i: int|
                0 <= j < self.headers().len() && 0 <= i < self.headers().len() && j != i implies self.headers()[j].0
                != self.headers()[i].0 by {
                assert(before[j].0 != before[i].0);
            }
        }
    }

    /// Lay down a header named `symbol` at the next aligned position, link it
    /// to the last word, make it the last word, and point its data field
    /// just past it. A header that the new one overlaps is gone.
    pub fn compile_word(&mut self, symbol: usize, action: A)
        requires
            old(self).wf(),
            old(self).len_view() + 2 * JIT_ALIGN + JIT_WORD_SIZE <= old(self).cap_view(),
        ensures
            final(self).wf(),
            final(self).headers() == without_overlapping(
                old(self).headers(),
                aligned8(old(self).len_view() as int) as usize,
            ).push(
                (
                    aligned8(old(self).len_view() as int) as usize,
                    JitWord {
                        link: old(self).last_view(),
                        symbol,
                        is_immediate: false,
                        is_compile_only: false,
                        hidden: false,
                        dfa: aligned8(old(self).len_view() + JIT_WORD_SIZE) as usize,
                        action,
                    },
                ),
            ),
            final(self).last_view() == aligned8(old(self).len_view() as int),
            final(self).len_view() == aligned8(old(self).len_view() + JIT_WORD_SIZE),
            final(self).bytes() == old(self).bytes(),
            final(self).cap_view() == old(self).cap_view(),
    {
        self.align();
        let len = self.len;
        let mut w = JitWord::new(symbol, action);
        w.link = self.last;
        self.len = self.len + JIT_WORD_SIZE;
        self.align();
        w.dfa = self.len;
        let ghost before = self.words@;
        let mut kept: Vec<(usize, JitWord<A>)> = Vec::new();
        let mut i: usize = 0;
        while i < self.words.len()
            invariant
                self.words@ == before,
                i <= before.len(),
                len + JIT_WORD_SIZE <= usize::MAX,
                kept@ == without_overlapping(before.take(i as int), len),
            decreases before.len() - i,
        {
            let e = self.words[i];
            let ov = e.0 < len + JIT_WORD_SIZE && (e.0 >= len || len - e.0 < JIT_WORD_SIZE);
            if !ov {
                kept.push(e);
            }
            proof {
                assert(before.take(i + 1).drop_last() =~= before.take(i as int));
            }
            i = i + 1;
        }
        proof {
            assert(before.take(before.len() as int) =~= before);
            lemma_without_overlapping(before, len);
        }
        kept.push((len, w));
        self.words = kept;
        self.last = len;
        proof {
            let r = without_overlapping(before, len);
            let h = self.headers();
            assert forall|a: int, b: int|
                0 <= a < h.len() && 0 <= b < h.len() && a != b implies h[a].0 != h[b].0 by {
                if a < r.len() && b < r.len() {
                } else if a == r.len() {
                    assert(!overlaps(r[b].0, len));
                } else {
                    assert(!overlaps(r[a].0, len));
                }
            }
        }
    }

    /// The index of the header at position `pos`, if there is one.
    fn lookup(&self, pos: usize) -> (r: Option<usize>)
        requires
            self.wf(),
        ensures
            r matches Some(k) ==> self.is_header(pos) && k < self.headers().len() && self.headers()[k as int].0
                == pos && k as int == self.index_of(pos),
            r is None ==> !self.is_header(pos),
    {
        let mut k: usize = 0;
        while k < self.words.len()
            invariant
                self.wf(),
                k <= self.words@.len(),
                forall|i: int| 0 <= i < k ==> #[trigger] self.words@[i].0 != pos,
            decreases self.words@.len() - k,
        {
            if self.words[k].0 == pos {
                proof {
                    assert(self.headers()[k as int].0 == pos);
                    let c = self.index_of(pos);
                    assert(c == k);
                }
                return Some(k);
            }
            k = k + 1;
        }
        None
    }

    /// Search the dictionary, from the last word along the links, for a
    /// visible word named `symbol`.
    pub fn find(&mut self, symbol: usize) -> (r: Option<usize>)
        requires
            old(self).wf(),
        ensures
            *final(self) == *old(self),
            r == old(self).find_spec(symbol),
    {
        let mut p = self.last;
        let mut fuel: usize = self.words.len();
        loop
            invariant
                self.wf(),
                *self == *old(self),
                self.find_spec(symbol) == find_at(self.headers(), p, symbol, fuel as nat),
            decreases fuel,
        {
            if p == 0 || fuel == 0 {
                return None;
            }
            match self.lookup(p) {
                None => {
                    return None;
                },
                Some(k) => {
                    let w = &self.words[k].1;
                    if !w.hidden && w.symbol == symbol {
                        return Some(p);
                    }
                    p = w.link;
                    fuel = fuel - 1;
                },
            }
        }
    }

    /// Store byte `v` at `pos`.
    pub fn put_u8(&mut self, v: u8, pos: usize)
        requires
            old(self).wf(),
            pos < old(self).cap_view(),
        ensures
            final(self).wf(),
            final(self).bytes() == old(self).bytes().update(pos as int, v),
            final(self).headers() == old(self).headers(),
            final(self).len_view() == old(self).len_view(),
            final(self).cap_view() == old(self).cap_view(),
            final(self).last_view() == old(self).last_view(),
    {
        self.inner.set(pos, v);
    }

    /// Compile byte `v`.
    pub fn compile_u8(&mut self, v: u8)
        requires
            old(self).wf(),
            old(self).len_view() + 1 <= old(self).cap_view(),
        ensures
            final(self).wf(),
            final(self).bytes() == old(self).bytes().update(old(self).len_view() as int, v),
            final(self).headers() == old(self).headers(),
            final(self).len_view() == old(self).len_view() + 1,
            final(self).cap_view() == old(self).cap_view(),
            final(self).last_view() == old(self).last_view(),
    {
        let len = self.len;
        self.put_u8(v, len);
        self.len = len + 1;
    }

    /// Store `v` little-endian at `pos`.
    pub fn put_u32(&mut self, v: u32, pos: usize)
        requires
            old(self).wf(),
            pos + 4 <= old(self).cap_view(),
        ensures
            final(self).wf(),
            final(self).bytes() == write_bytes(old(self).bytes(), pos as int, spec_u32_to_le_bytes(v)),
            final(self).headers() == old(self).headers(),
            final(self).len_view() == old(self).len_view(),
            final(self).cap_view() == old(self).cap_view(),
            final(self).last_view() == old(self).last_view(),
    {
        let bytes = u32_to_le_bytes(v);
        copy_into(&mut self.inner, pos, bytes.as_slice());
    }

    /// Compile `v`, little-endian.
    pub fn compile_u32(&mut self, v: u32)
        requires
            old(self).wf(),
            old(self).len_view() + 4 <= old(self).cap_view(),
        ensures
            final(self).wf(),
            final(self).bytes() == write_bytes(
                old(self).bytes(),
                old(self).len_view() as int,
                spec_u32_to_le_bytes(v),
            ),
            final(self).headers() == old(self).headers(),
            final(self).len_view() == old(self).len_view() + 4,
            final(self).cap_view() == old(self).cap_view(),
            final(self).last_view() == old(self).last_view(),
    {
        let len = self.len;
        self.put_u32(v, len);
        self.len = len + 4;
    }

    /// Store `v` little-endian at `pos`.
    pub fn put_i32(&mut self, v: i32, pos: usize)
        requires
            old(self).wf(),
            pos + 4 <= old(self).cap_view(),
        ensures
            final(self).wf(),
            final(self).bytes() == write_bytes(
                old(self).bytes(),
                pos as int,
                spec_u32_to_le_bytes(v as u32),
            ),
            final(self).headers() == old(self).headers(),
            final(self).len_view() == old(self).len_view(),
            final(self).cap_view() == old(self).cap_view(),
            final(self).last_view() == old(self).last_view(),
    {
        self.put_u32(v as u32, pos);
    }

    /// Compile `v`, little-endian.
    pub fn compile_i32(&mut self, v: i32)
        requires
            old(self).wf(),
            old(self).len_view() + 4 <= old(self).cap_view(),
        ensures
            final(self).wf(),
            final(self).bytes() == write_bytes(
                old(self).bytes(),
                old(self).len_view() as int,
                spec_u32_to_le_bytes(v as u32),
            ),
            final(self).headers() == old(self).headers(),
            final(self).len_view() == old(self).len_view() + 4,
            final(self).cap_view() == old(self).cap_view(),
            final(self).last_view() == old(self).last_view(),
    {
        let len = self.len;
        self.put_i32(v, len);
        self.len = len + 4;
    }

    /// Compile the bytes of `s`.
    pub fn compile_str(&mut self, s: &str)
        requires
            old(self).wf(),
            old(self).len_view() + s.spec_bytes().len() <= old(self).cap_view(),
        ensures
            final(self).wf(),
            final(self).bytes() == write_bytes(
                old(self).bytes(),
                old(self).len_view() as int,
                s.spec_bytes(),
            ),
            final(self).headers() == old(self).headers(),
            final(self).len_view() == old(self).len_view() + s.spec_bytes().len(),
            final(self).cap_view() == old(self).cap_view(),
            final(self).last_view() == old(self).last_view(),
    {
        let bytes = s.as_bytes();
        let len = self.len;
        copy_into(&mut self.inner, len, bytes);
        self.len = len + bytes.len();
    }

    /// If the first free position is not aligned, reserve enough space to
    /// align it.
    pub fn align(&mut self)
        requires
            old(self).len_view() + JIT_ALIGN - 1 <= usize::MAX,
        ensures
            final(self).len_view() == aligned8(old(self).len_view() as int),
            final(self).bytes() == old(self).bytes(),
            final(self).headers() == old(self).headers(),
            final(self).cap_view() == old(self).cap_view(),
            final(self).last_view() == old(self).last_view(),
    {
        self.len = (self.len + (JIT_ALIGN - 1)) / JIT_ALIGN * JIT_ALIGN;
    }

    /// Move the first free position by `v` bytes, wrapping as the address
    /// arithmetic of the machine does.
    pub fn allot(&mut self, v: isize)
        requires
            isize::MIN <= (old(self).len_view() as isize) + v <= isize::MAX,
        ensures
            final(self).len_view() == ((old(self).len_view() as isize) + v) as usize,
            final(self).bytes() == old(self).bytes(),
            final(self).headers() == old(self).headers(),
            final(self).cap_view() == old(self).cap_view(),
            final(self).last_view() == old(self).last_view(),
    {
        let len = (self.len() as isize + v) as usize;
        self.len = len;
    }

    /// Set the first free position to `i`.
    pub fn truncate(&mut self, i: usize)
        ensures
            final(self).len_view() == i,
            final(self).bytes() == old(self).bytes(),
            final(self).headers() == old(self).headers(),
            final(self).cap_view() == old(self).cap_view(),
            final(self).last_view() == old(self).last_view(),
    {
        self.len = i;
    }
}

/// The index of the header at position `p`.
pub open spec fn header_index_of<A>(h: Seq<(usize, JitWord<A>)>, p: usize) -> int {
    choose|k: int| 0 <= k < h.len() && #[trigger] h[k].0 == p
}

/// `p` is the position of a header.
pub open spec fn is_header_in<A>(h: Seq<(usize, JitWord<A>)>, p: usize) -> bool {
    exists|k: int| 0 <= k < h.len() && #[trigger] h[k].0 == p
}

/// No two headers lie at the same position.
pub open spec fn headers_ok<A>(h: Seq<(usize, JitWord<A>)>) -> bool {
    forall|j: int, k: int| 0 <= j < h.len() && 0 <= k < h.len() && j != k ==> h[j].0 != h[k].0
}

/// Where a search for `symbol` ends when it reaches position `p` with at
/// most `fuel` headers left to pass: the first visible header named
/// `symbol` on the chain of links from `p`. The chain ends at 0, or at a
/// position that holds no header. A chain that comes back to a header it
/// passed never reaches 0; the search gives up on it, with `None`, once it
/// has passed as many headers as there are.
pub open spec fn find_at<A>(h: Seq<(usize, JitWord<A>)>, p: usize, symbol: usize, fuel: nat) -> Option<
    usize,
>
    decreases fuel,
{
    if p == 0 || fuel == 0 || !is_header_in(h, p) {
        None
    } else {
        let w = h[header_index_of(h, p)].1;
        if !w.hidden && w.symbol == symbol {
            Some(p)
        } else {
            find_at(h, w.link, symbol, (fuel - 1) as nat)
        }
    }
}

/// A header at `q` and one at `p` share a byte.
pub open spec fn overlaps(q: usize, p: usize) -> bool {
    q < p + JIT_WORD_SIZE && p < q + JIT_WORD_SIZE
}

/// The headers that a new header at `p` leaves: those it does not overlap,
/// in their order.
pub open spec fn without_overlapping<A>(h: Seq<(usize, JitWord<A>)>, p: usize) -> Seq<
    (usize, JitWord<A>),
>
    decreases h.len(),
{
    if h.len() == 0 {
        Seq::empty()
    } else {
        let r = without_overlapping(h.drop_last(), p);
        if overlaps(h.last().0, p) {
            r
        } else {
            r.push(h.last())
        }
    }
}

/// The headers left beside a new one at `p` are headers of `h` that it does
/// not overlap, still at distinct positions.
proof fn lemma_without_overlapping<A>(h: Seq<(usize, JitWord<A>)>, p: usize)
    requires
        headers_ok(h),
    ensures
        headers_ok(without_overlapping(h, p)),
        forall|k: int|
            0 <= k < without_overlapping(h, p).len() ==> !overlaps(
                #[trigger] without_overlapping(h, p)[k].0,
                p,
            ) && h.contains(without_overlapping(h, p)[k]),
    decreases h.len(),
{
    if h.len() > 0 {
        let d = h.drop_last();
        assert forall|j: int, k: int| 0 <= j < d.len() && 0 <= k < d.len() && j != k implies d[j].0
            != d[k].0 by {
            assert(h[j].0 != h[k].0);
        }
        lemma_without_overlapping(d, p);
        let r = without_overlapping(d, p);
        let n = h.len() - 1;
        assert forall|k: int| 0 <= k < r.len() implies h.contains(#[trigger] r[k]) by {
            assert(!overlaps(r[k].0, p));
            assert(d.contains(r[k]));
            let j = choose|j: int| 0 <= j < d.len() && d[j] == r[k];
            assert(h[j] == r[k]);
        }
        if !overlaps(h.last().0, p) {
            let r2 = r.push(h.last());
            assert forall|k: int| 0 <= k < r.len() implies (#[trigger] r[k]).0 != h[n].0 by {
                assert(!overlaps(r[k].0, p));
                assert(d.contains(r[k]));
                let j = choose|j: int| 0 <= j < d.len() && d[j] == r[k];
                assert(h[j].0 != h[n].0);
            }
            assert forall|a: int, b: int| 0 <= a < r2.len() && 0 <= b < r2.len() && a != b implies r2[a].0
                != r2[b].0 by {
                if a < r.len() && b < r.len() {
                } else if a == r.len() {
                    assert(r[b].0 != h[n].0);
                } else {
                    assert(r[a].0 != h[n].0);
                }
            }
            assert forall|k: int| 0 <= k < r2.len() implies h.contains(#[trigger] r2[k]) by {
                if k < r.len() {
                    assert(r2[k] == r[k]);
                } else {
                    assert(h[n] == r2[k]);
                }
            }
        }
    }
}

/// The first free position after it is moved by each of `steps` in turn,
/// as `allot(v)` moves it by `v`; `compile_u8` moves it by 1, and
/// `compile_u32` and `compile_i32` by 4.
pub open spec fn len_after_steps(len: usize, steps: Seq<isize>) -> usize
    decreases steps.len(),
{
    if steps.len() == 0 {
        len
    } else {
        ((len_after_steps(len, steps.drop_last()) as isize) + steps.last()) as usize
    }
}

/// The bytes that `steps` add up to.
pub open spec fn total_steps(steps: Seq<isize>) -> int
    decreases steps.len(),
{
    if steps.len() == 0 {
        0
    } else {
        total_steps(steps.drop_last()) + steps.last()
    }
}

/// Moving the first free position forward by `steps` that fit in an
/// `isize` moves it by their total.
proof fn lemma_len_after_steps(len: usize, steps: Seq<isize>)
    requires
        len <= isize::MAX,
        forall|k: int| 0 <= k < steps.len() ==> #[trigger] steps[k] >= 0,
        len + total_steps(steps) <= isize::MAX,
    ensures
        len_after_steps(len, steps) == len + total_steps(steps),
        total_steps(steps) >= 0,
    decreases steps.len(),
{
    if steps.len() > 0 {
        let p = steps.drop_last();
        assert forall|k: int| 0 <= k < p.len() implies #[trigger] p[k] >= 0 by {
            assert(p[k] == steps[k]);
        }
        assert(steps[steps.len() - 1] >= 0);
        lemma_len_after_steps(len, p);
    }
}

/// A new memory, after compiling and allotting forward by `steps` bytes in
/// turn (within an `isize`), is empty exactly when nothing was added.
pub proof fn law_is_empty_after_compiles(steps: Seq<isize>)
    requires
        forall|k: int| 0 <= k < steps.len() ==> #[trigger] steps[k] >= 0,
        JIT_ALIGN + total_steps(steps) <= isize::MAX,
    ensures
        len_after_steps(JIT_ALIGN, steps) == JIT_ALIGN + total_steps(steps),
        (len_after_steps(JIT_ALIGN, steps) == JIT_ALIGN) == (total_steps(steps) == 0),
{
    lemma_len_after_steps(JIT_ALIGN, steps);
}

/// First multiple of eight at or after `pos`.
pub open spec fn aligned8(pos: int) -> int {
    (pos + 7) / 8 * 8
}

} // verus!
