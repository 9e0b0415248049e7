//! Primitives on data space, division, error handling and output.

use vstd::prelude::*;
use vstd::string::StringSliceAdditionalSpecFns;
use vstd::utf8::encode_utf8;

use crate::arith::{abs_int, trunc_div, trunc_rem, wrapping_abs, wrapping_div, wrapping_neg, wrapping_rem};
use crate::exception::{description, description_text, Exception};
use crate::kernel::{StackView, State};
use crate::memory::{write_field, CELL};
use crate::vm::{VmView, VM, FALSE, TRUE};

verus! {

/// `n / t` rounded toward zero; `isize::MIN / -1` wraps.
pub open spec fn cell_div(n: isize, t: isize) -> isize {
    if n == isize::MIN && t == -1 {
        isize::MIN
    } else {
        trunc_div(n as int, t as int) as isize
    }
}

/// The remainder of `n / t` rounded toward zero.
pub open spec fn cell_rem(n: isize, t: isize) -> isize {
    trunc_rem(n as int, t as int) as isize
}

/// The absolute value of `n`; `isize::MIN` wraps to itself.
pub open spec fn cell_abs(n: isize) -> isize {
    if n == isize::MIN {
        isize::MIN
    } else {
        abs_int(n as int) as isize
    }
}

/// `-n`; `isize::MIN` wraps to itself.
pub open spec fn cell_neg(n: isize) -> isize {
    if n == isize::MIN {
        isize::MIN
    } else {
        (-(n as int)) as isize
    }
}

/// A stack ran past its top: the canary at cell 32 is gone, or the depth
/// is between 33 and 128.
pub open spec fn overflowed<T>(st: StackView<T>) -> bool {
    st.cells[32] != st.canary || (st.len > 32 && st.len <= 128)
}

/// A stack was popped below its bottom: the canary at cell 255 is gone, or
/// the depth wrapped above 128.
pub open spec fn underflowed<T>(st: StackView<T>) -> bool {
    st.cells[255] != st.canary || st.len > 128
}

/// The bytes that `emit` appends for the character code `b`: the UTF-8
/// encoding of the character `b` stands for.
pub open spec fn emit_bytes(b: u8) -> Seq<u8> {
    if b < 128 {
        seq![b]
    } else {
        seq![(0xc0u8 | (b >> 6u8)) as u8, (0x80u8 | (b & 0x3fu8)) as u8]
    }
}

/// Append `b` to `v`.
pub(crate) fn push_bytes(v: &mut Vec<u8>, b: &[u8])
    ensures
        final(v)@ == old(v)@ + b@,
{
    let mut i: usize = 0;
    while i < b.len()
        invariant
            i <= b@.len(),
            v@ == old(v)@ + b@.take(i as int),
        decreases b@.len() - i,
    {
        v.push(b[i]);
        proof {
            assert(b@.take(i + 1) =~= b@.take(i as int).push(b@[i as int]));
        }
        i = i + 1;
    }
    assert(b@.take(b@.len() as int) =~= b@);
}

impl VmView {
    /// ( n1 n2 -- n3 ) Quotient, rounded toward zero.
    pub open spec fn slash(self) -> VmView {
        let t = self.s.peek(1);
        let n = self.s.peek(2);
        if t == 0 {
            self.abort_with(Exception::DivisionByZero)
        } else {
            self.with_s(self.s.poke(2, cell_div(n, t)).drop_n(1))
        }
    }

    /// ( n1 n2 -- n3 ) Remainder, with the sign of `n1`.
    pub open spec fn p_mod(self) -> VmView {
        let t = self.s.peek(1);
        let n = self.s.peek(2);
        if t == 0 {
            self.abort_with(Exception::DivisionByZero)
        } else {
            self.with_s(self.s.poke(2, cell_rem(n, t)).drop_n(1))
        }
    }

    /// ( n1 n2 -- n3 n4 ) Remainder and quotient.
    pub open spec fn slash_mod(self) -> VmView {
        let t = self.s.peek(1);
        let n = self.s.peek(2);
        if t == 0 {
            self.abort_with(Exception::DivisionByZero)
        } else {
            self.with_s(self.s.poke(2, cell_rem(n, t)).poke(1, cell_div(n, t)))
        }
    }

    /// ( n -- u ) Absolute value.
    pub open spec fn abs(self) -> VmView {
        self.with_s(self.s.drop_n(1).push(cell_abs(self.s.peek(1))))
    }

    /// ( n -- -n ) Negation.
    pub open spec fn negate(self) -> VmView {
        self.with_s(self.s.drop_n(1).push(cell_neg(self.s.peek(1))))
    }

    /// ( -- n ) The index of the next outer loop.
    pub open spec fn p_j(self) -> VmView {
        if self.r.len < 4 {
            self.abort_with(Exception::ReturnStackUnderflow)
        } else {
            self.with_s(self.s.push(self.r.peek(4)))
        }
    }

    /// Abort when a stack ran past either end.
    pub open spec fn check_stacks(self) -> VmView {
        if overflowed(self.s) {
            self.abort_with(Exception::StackOverflow)
        } else if underflowed(self.s) {
            self.abort_with(Exception::StackUnderflow)
        } else if overflowed(self.r) {
            self.abort_with(Exception::ReturnStackOverflow)
        } else if underflowed(self.r) {
            self.abort_with(Exception::ReturnStackUnderflow)
        } else if overflowed(self.c) {
            self.abort_with(Exception::ControlStructureMismatch)
        } else if underflowed(self.c) {
            self.abort_with(Exception::ControlStructureMismatch)
        } else {
            self
        }
    }

    /// Report and clear a pending error.
    pub open spec fn p_handle_error(self) -> VmView {
        match self.error {
            Some(e) => VmView {
                s: self.s.reset(),
                error: None,
                output: self.output + encode_utf8(description_text(e)) + seq![32u8],
                ..self
            },
            None => self,
        }
    }

    /// Reset the return and control stacks, the input, the state, what is
    /// pending and any request; keep the data stack.
    pub open spec fn reset(self) -> VmView {
        VmView {
            r: StackView { len: 0, ..self.r },
            c: StackView { len: 0, ..self.c },
            input: Seq::empty(),
            state: State { source_index: 0, is_compiling: false, ..self.state },
            error: None,
            pending_xt: None,
            pending_handler: false,
            request: None,
            ..self
        }
    }

    /// Abort.
    pub open spec fn abort(self) -> VmView {
        self.abort_with(Exception::Abort)
    }

    /// ( xt -- ) Leave the word `xt` pending, to be executed next.
    pub open spec fn execute(self) -> VmView {
        VmView { s: self.s.drop_n(1), pending_xt: Some(self.s.peek(1) as usize), ..self }
    }

    /// The 32-bit field at address `t` (a cell value) can be read.
    pub open spec fn cell_addr_ok(self, t: isize, size: int) -> bool {
        0 <= t && t + size <= self.mem.len()
    }

    /// ( a-addr -- x ) Fetch the cell at `a-addr`.
    pub open spec fn fetch(self) -> VmView {
        let t = self.s.peek(1);
        let v = self.with_s(self.s.drop_n(1));
        if v.cell_addr_ok(t, 4) {
            v.with_s(v.s.push(v.field(t as int) as isize))
        } else {
            v.abort_with(Exception::InvalidMemoryAddress)
        }
    }

    /// ( x a-addr -- ) Store `x` at `a-addr`.
    pub open spec fn store(self) -> VmView {
        let t = self.s.peek(1);
        let n = self.s.peek(2);
        let v = self.with_s(self.s.drop_n(2));
        if v.cell_addr_ok(t, 4) {
            VmView { mem: write_field(v.mem, t as int, (n as i32) as u32), ..v }
        } else {
            v.abort_with(Exception::InvalidMemoryAddress)
        }
    }

    /// ( c-addr -- char ) Fetch the byte at `c-addr`.
    pub open spec fn c_fetch(self) -> VmView {
        let t = self.s.peek(1);
        let v = self.with_s(self.s.drop_n(1));
        if v.cell_addr_ok(t, 1) {
            v.with_s(v.s.push(v.mem[t as int] as isize))
        } else {
            v.abort_with(Exception::InvalidMemoryAddress)
        }
    }

    /// ( char c-addr -- ) Store the low byte of `char` at `c-addr`.
    pub open spec fn c_store(self) -> VmView {
        let t = self.s.peek(1);
        let n = self.s.peek(2);
        let v = self.with_s(self.s.drop_n(2));
        if v.cell_addr_ok(t, 1) {
            VmView { mem: v.mem.update(t as int, n as u8), ..v }
        } else {
            v.abort_with(Exception::InvalidMemoryAddress)
        }
    }

    /// ( n -- ) Move the data-space pointer by `n`; a move that would leave
    /// data space is ignored.
    pub open spec fn allot(self) -> VmView {
        let n = self.s.peek(1);
        let v = self.with_s(self.s.drop_n(1));
        if 0 <= self.here + n <= self.mem.len() {
            VmView { here: (self.here + n) as nat, ..v }
        } else {
            v
        }
    }

    /// ( x -- ) Compile `x` into a 32-bit field of data space.
    pub open spec fn comma(self) -> VmView {
        let n = self.s.peek(1);
        let v = self.with_s(self.s.drop_n(1));
        if self.here + 4 <= self.mem.len() {
            VmView {
                mem: write_field(v.mem, v.here as int, (n as i32) as u32),
                here: v.here + 4,
                ..v
            }
        } else {
            v.abort_with(Exception::DictionaryOverflow)
        }
    }

    /// ( char -- ) Append the character `char` to the output.
    pub open spec fn emit(self) -> VmView {
        VmView {
            s: self.s.drop_n(1),
            output: self.output + emit_bytes(self.s.peek(1) as u8),
            ..self
        }
    }

    /// ( c-addr u -- ) Append `u` bytes of data space from `c-addr` to the
    /// output.
    pub open spec fn p_type(self) -> VmView {
        let len = self.s.peek(1);
        let addr = self.s.peek(2);
        let v = self.with_s(self.s.drop_n(2));
        if underflowed(v.s) {
            v.abort_with(Exception::StackUnderflow)
        } else if 0 <= addr && 0 <= len && addr + len <= v.mem.len() {
            VmView { output: v.output + v.mem.subrange(addr as int, addr + len), ..v }
        } else {
            v.abort_with(Exception::InvalidMemoryAddress)
        }
    }
}

impl VM {
    /// ( n1 n2 -- n3 ) Quotient, rounded toward zero.
    pub fn slash(&mut self)
        requires
            old(self).wf(),
        ensures
            final(self).wf(),
            final(self)@ == old(self)@.slash(),
    {
        let t = self.s_stk.peek(1);
        let n = self.s_stk.peek(2);
        if t == 0 {
            self.abort_with(Exception::DivisionByZero);
        } else {
            self.s_stk.poke(2, wrapping_div(n, t));
            self.s_stk.drop_n(1);
        }
    }

    /// ( n1 n2 -- n3 ) Remainder, with the sign of `n1`.
    pub fn p_mod(&mut self)
        requires
            old(self).wf(),
        ensures
            final(self).wf(),
            final(self)@ == old(self)@.p_mod(),
    {
        let t = self.s_stk.peek(1);
        let n = self.s_stk.peek(2);
        if t == 0 {
            self.abort_with(Exception::DivisionByZero);
        } else {
            self.s_stk.poke(2, wrapping_rem(n, t));
            self.s_stk.drop_n(1);
        }
    }

    /// ( n1 n2 -- n3 n4 ) Remainder and quotient.
    pub fn slash_mod(&mut self)
        requires
            old(self).wf(),
        ensures
            final(self).wf(),
            final(self)@ == old(self)@.slash_mod(),
    {
        let t = self.s_stk.peek(1);
        let n = self.s_stk.peek(2);
        if t == 0 {
            self.abort_with(Exception::DivisionByZero);
        } else {
            self.s_stk.poke(2, wrapping_rem(n, t));
            self.s_stk.poke(1, wrapping_div(n, t));
        }
    }

    /// ( n -- u ) Absolute value.
    pub fn abs(&mut self)
        requires
            old(self).wf(),
        ensures
            final(self).wf(),
            final(self)@ == old(self)@.abs(),
    {
        let t = self.s_stk.pop();
        self.s_stk.push(wrapping_abs(t));
    }

    /// ( n -- -n ) Negation.
    pub fn negate(&mut self)
        requires
            old(self).wf(),
        ensures
            final(self).wf(),
            final(self)@ == old(self)@.negate(),
    {
        let t = self.s_stk.pop();
        self.s_stk.push(wrapping_neg(t));
    }

    /// ( -- n ) The index of the next outer loop.
    pub fn p_j(&mut self)
        requires
            old(self).wf(),
        ensures
            final(self).wf(),
            final(self)@ == old(self)@.p_j(),
    {
        if self.r_stk.len < 4 {
            self.abort_with(Exception::ReturnStackUnderflow);
        } else {
            let j = self.r_stk.peek(4);
            self.s_stk.push(j);
        }
    }

    /// Abort when a stack ran past either end.
    pub fn check_stacks(&mut self)
        requires
            old(self).wf(),
        ensures
            final(self).wf(),
            final(self)@ == old(self)@.check_stacks(),
    {
        if self.s_stk.overflow() {
            self.abort_with(Exception::StackOverflow);
        } else if self.s_stk.underflow() {
            self.abort_with(Exception::StackUnderflow);
        } else if self.r_stk.overflow() {
            self.abort_with(Exception::ReturnStackOverflow);
        } else if self.r_stk.underflow() {
            self.abort_with(Exception::ReturnStackUnderflow);
        } else if self.c_stk.overflow() {
            self.abort_with(Exception::ControlStructureMismatch);
        } else if self.c_stk.underflow() {
            self.abort_with(Exception::ControlStructureMismatch);
        }
    }

    /// Report and clear a pending error.
    pub fn p_handle_error(&mut self)
        requires
            old(self).wf(),
        ensures
            final(self).wf(),
            final(self)@ == old(self)@.p_handle_error(),
    {
        match self.last_error {
            Some(e) => {
                self.s_stk.reset();
                self.last_error = None;
                let d = description(e);
                push_bytes(&mut self.outbuf, d.as_bytes());
                self.outbuf.push(32u8);
            },
            None => {},
        }
    }

    /// Reset the return and control stacks, the input, the state, what is
    /// pending and any request; keep the data stack.
    pub fn reset(&mut self)
        requires
            old(self).wf(),
        ensures
            final(self).wf(),
            final(self)@ == old(self)@.reset(),
    {
        self.r_stk.len = 0;
        self.c_stk.len = 0;
        self.inbuf.clear();
        self.state.source_index = 0;
        self.state.is_compiling = false;
        self.last_error = None;
        self.pending_xt = None;
        self.pending_handler = false;
        self.request = None;
    }

    /// Abort.
    pub fn abort(&mut self)
        requires
            old(self).wf(),
        ensures
            final(self).wf(),
            final(self)@ == old(self)@.abort(),
    {
        self.abort_with(Exception::Abort);
    }

    /// ( xt -- ) Leave the word `xt` pending.
    pub fn execute_next(&mut self)
        requires
            old(self).wf(),
        ensures
            final(self).wf(),
            final(self)@ == old(self)@.execute(),
    {
        let t = self.s_stk.pop();
        self.pending_xt = Some(t as usize);
    }

    /// ( a-addr -- x ) Fetch the cell at `a-addr`.
    pub fn fetch(&mut self)
        requires
            old(self).wf(),
        ensures
            final(self).wf(),
            final(self)@ == old(self)@.fetch(),
    {
        let t = self.s_stk.pop();
        let cap = self.data_space.capacity();
        if 0 <= t && t as usize <= cap && 4 <= cap - t as usize {
            let value = self.data_space.get_i32(t as usize) as isize;
            self.s_stk.push(value);
        } else {
            self.abort_with(Exception::InvalidMemoryAddress);
        }
    }

    /// ( x a-addr -- ) Store `x` at `a-addr`.
    pub fn store(&mut self)
        requires
            old(self).wf(),
        ensures
            final(self).wf(),
            final(self)@ == old(self)@.store(),
    {
        let (n, t) = self.s_stk.pop2();
        let cap = self.data_space.capacity();
        if 0 <= t && t as usize <= cap && 4 <= cap - t as usize {
            self.data_space.put_i32(n as i32, t as usize);
        } else {
            self.abort_with(Exception::InvalidMemoryAddress);
        }
    }

    /// ( c-addr -- char ) Fetch the byte at `c-addr`.
    pub fn c_fetch(&mut self)
        requires
            old(self).wf(),
        ensures
            final(self).wf(),
            final(self)@ == old(self)@.c_fetch(),
    {
        let t = self.s_stk.pop();
        let cap = self.data_space.capacity();
        if 0 <= t && (t as usize) < cap {
            let value = self.data_space.get_u8(t as usize) as isize;
            self.s_stk.push(value);
        } else {
            self.abort_with(Exception::InvalidMemoryAddress);
        }
    }

    /// ( char c-addr -- ) Store the low byte of `char` at `c-addr`.
    pub fn c_store(&mut self)
        requires
            old(self).wf(),
        ensures
            final(self).wf(),
            final(self)@ == old(self)@.c_store(),
    {
        let (n, t) = self.s_stk.pop2();
        let cap = self.data_space.capacity();
        if 0 <= t && (t as usize) < cap {
            self.data_space.put_u8(n as u8, t as usize);
        } else {
            self.abort_with(Exception::InvalidMemoryAddress);
        }
    }

    /// ( n -- ) Move the data-space pointer by `n`; a move that would leave
    /// data space is ignored.
    pub fn allot(&mut self)
        requires
            old(self).wf(),
        ensures
            final(self).wf(),
            final(self)@ == old(self)@.allot(),
    {
        let v = self.s_stk.pop();
        let here = self.data_space.here();
        if v <= isize::MAX - here as isize {
            self.data_space.allot(v);
        }
    }

    /// ( x -- ) Compile `x` into a 32-bit field of data space.
    pub fn comma(&mut self)
        requires
            old(self).wf(),
        ensures
            final(self).wf(),
            final(self)@ == old(self)@.comma(),
    {
        let v = self.s_stk.pop();
        let here = self.data_space.here();
        if here + 4 <= self.data_space.capacity() {
            self.data_space.compile_i32(v as i32);
        } else {
            self.abort_with(Exception::DictionaryOverflow);
        }
    }

    /// ( char -- ) Append the character `char` to the output.
    pub fn emit(&mut self)
        requires
            old(self).wf(),
        ensures
            final(self).wf(),
            final(self)@ == old(self)@.emit(),
    {
        let ch = self.s_stk.pop();
        let b = ch as u8;
        if b < 128 {
            self.outbuf.push(b);
        } else {
            self.outbuf.push(0xc0u8 | (b >> 6u8));
            self.outbuf.push(0x80u8 | (b & 0x3fu8));
        }
    }

    /// ( c-addr u -- ) Append `u` bytes of data space from `c-addr` to the
    /// output.
    pub fn p_type(&mut self)
        requires
            old(self).wf(),
        ensures
            final(self).wf(),
            final(self)@ == old(self)@.p_type(),
    {
        let (addr, len) = self.s_stk.pop2();
        if self.s_stk.underflow() {
            self.abort_with(Exception::StackUnderflow);
            return;
        }
        let cap = self.data_space.capacity();
        if 0 <= addr && 0 <= len && addr as usize <= cap && len as usize <= cap - addr as usize {
            let bytes = self.data_space.buffer_from_raw_parts(addr as usize, len as usize);
            push_bytes(&mut self.outbuf, bytes);
        } else {
            self.abort_with(Exception::InvalidMemoryAddress);
        }
    }
}

} // verus!
