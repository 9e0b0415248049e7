//! The run-time words of compiled code (literals, branches, loops, calls)
//! and the immediate words that compile control structures.
//!
//! A branch, a loop or a literal reads the 32-bit field that follows its
//! index in the definition: the inline operand. An operand outside data
//! space aborts with `InvalidMemoryAddress`; a control structure that does
//! not fit in data space aborts with `DictionaryOverflow`.

use vstd::prelude::*;

use crate::exception::Exception;
use crate::kernel::{Control, StackView};
use crate::memory::{aligned_to, cell_value, DataSpace, CELL};
use crate::memory_words::underflowed;
use crate::vm::{Request, VmView, Word, VM};

verus! {

/// Some loop on the control-flow stack is still open.
pub open spec fn has_do(c: StackView<Control>) -> bool {
    exists|k: int| 0 <= k < c.len && #[trigger] c.cells[k] is Do
}

impl VmView {
    /// ( -- x ) Push the inline operand and step over it.
    pub open spec fn lit(self) -> VmView {
        if self.operand_ok() {
            self.with_s(self.s.push(self.operand() as isize)).skip_operand()
        } else {
            self.abort_with(Exception::InvalidMemoryAddress)
        }
    }

    /// Branch to the inline operand.
    pub open spec fn branch(self) -> VmView {
        if self.operand_ok() {
            self.jump()
        } else {
            self.abort_with(Exception::InvalidMemoryAddress)
        }
    }

    /// ( x -- ) Branch to the inline operand when `x` is zero, else step
    /// over it.
    pub open spec fn zero_branch(self) -> VmView {
        let v = self.with_s(self.s.drop_n(1));
        if !v.operand_ok() {
            v.abort_with(Exception::InvalidMemoryAddress)
        } else if self.s.peek(1) == 0 {
            v.jump()
        } else {
            v.skip_operand()
        }
    }

    /// ( n1 n2 -- ) ( R: -- addr n1 n2 ) Enter a counted loop whose exit
    /// address is the inline operand.
    pub open spec fn do_runtime(self) -> VmView {
        if self.operand_ok() {
            self.with_r(self.r.push(self.ip() as isize)).skip_operand().two_to_r()
        } else {
            self.abort_with(Exception::InvalidMemoryAddress)
        }
    }

    /// ( n1 n2 -- ) Like `do_runtime`, but skip the loop when `n1` equals
    /// `n2`.
    pub open spec fn qdo_runtime(self) -> VmView {
        let n1 = self.s.peek(2);
        let n2 = self.s.peek(1);
        let v = self.with_s(self.s.drop_n(2));
        if !v.operand_ok() {
            v.abort_with(Exception::InvalidMemoryAddress)
        } else if n1 == n2 {
            v.jump()
        } else {
            v.with_r(v.r.push(v.ip() as isize).push(n1).push(n2)).skip_operand()
        }
    }

    /// ( R: addr n i -- addr n i+1 | ) Add one to the index; loop back to
    /// the inline operand while it stays below the limit.
    pub open spec fn loop_runtime(self) -> VmView {
        let rn = self.r.peek(2);
        let rt = self.r.peek(1);
        let v = self.with_r(self.r.drop_n(2));
        if !v.operand_ok() {
            v.abort_with(Exception::InvalidMemoryAddress)
        } else if rt + 1 < rn {
            v.with_r(v.r.push(rn).push((rt + 1) as isize)).jump()
        } else {
            v.with_r(v.r.drop_n(1)).skip_operand()
        }
    }

    /// ( n -- ) ( R: addr lim i -- addr lim i+n | ) Add `n` to the index;
    /// loop back while the sum stays below the limit.
    pub open spec fn plus_loop_runtime(self) -> VmView {
        let rn = self.r.peek(2);
        let rt = self.r.peek(1);
        let t = self.s.peek(1);
        let v = self.with_r(self.r.drop_n(2)).with_s(self.s.drop_n(1));
        if !v.operand_ok() {
            v.abort_with(Exception::InvalidMemoryAddress)
        } else if rt + t < rn {
            v.with_r(v.r.push(rn).push((rt + t) as isize)).jump()
        } else {
            v.with_r(v.r.drop_n(1)).skip_operand()
        }
    }

    /// ( R: addr n i -- ) Leave the loop: continue at the address held in
    /// the field at `addr`.
    pub open spec fn leave(self) -> VmView {
        let third = self.r.peek(3);
        let v = self.with_r(self.r.drop_n(3));
        if underflowed(v.r) {
            v.abort_with(Exception::ReturnStackUnderflow)
        } else if v.cell_addr_ok(third, 4) {
            v.with_ip(v.field(third as int) as usize)
        } else {
            v.abort_with(Exception::InvalidMemoryAddress)
        }
    }

    /// ( R: addr -- ) Return to the calling definition.
    pub open spec fn exit(self) -> VmView {
        self.with_r(self.r.drop_n(1)).with_ip(self.r.peek(1) as usize)
    }

    /// ( -- c-addr u ) The string compiled inline after its 32-bit count;
    /// execution continues at the next aligned address after it.
    pub open spec fn s_quote_runtime(self) -> VmView {
        if !self.operand_ok() {
            self.abort_with(Exception::InvalidMemoryAddress)
        } else {
            let cnt = self.operand();
            let start = self.ip() + 4;
            if cnt < 0 || start + cnt > self.mem.len() {
                self.abort_with(Exception::InvalidMemoryAddress)
            } else {
                self.with_s(self.s.push(start as isize).push(cnt as isize)).with_ip(
                    aligned_to(start + cnt, CELL as int) as usize,
                )
            }
        }
    }

    /// ( F: -- r ) The floating-point number compiled inline at the next
    /// float-aligned address: ask for it to be pushed, as its bit pattern,
    /// and continue after it.
    pub open spec fn flit(self) -> VmView {
        let p = aligned_to(self.ip() as int, 8);
        if p + 8 <= self.mem.len() {
            VmView {
                request: Some(Request::PushFloat(cell_value(self.mem, p))),
                ..self.with_ip((p + 8) as usize)
            }
        } else {
            self.abort_with(Exception::InvalidMemoryAddress)
        }
    }

    /// ( R: -- addr ) Call the colon definition being executed.
    pub open spec fn nest(self) -> VmView {
        if self.current_word_ok() {
            self.with_r(self.r.push(self.ip() as isize)).with_ip(self.current_word().dfa)
        } else {
            self.abort_with(Exception::UndefinedWord)
        }
    }

    /// ( -- a-addr ) The data field of the variable being executed.
    pub open spec fn p_var(self) -> VmView {
        if self.current_word_ok() {
            self.with_s(self.s.push(self.current_word().dfa as isize))
        } else {
            self.abort_with(Exception::UndefinedWord)
        }
    }

    /// ( -- x ) The value of the constant being executed.
    pub open spec fn p_const(self) -> VmView {
        if !self.current_word_ok() {
            self.abort_with(Exception::UndefinedWord)
        } else if self.current_word().dfa + 4 <= self.mem.len() {
            self.with_s(self.s.push(self.field(self.current_word().dfa as int) as isize))
        } else {
            self.abort_with(Exception::InvalidMemoryAddress)
        }
    }

    /// Forget the marker being executed and everything defined after it.
    pub open spec fn unmark(self) -> VmView {
        if self.current_word_ok() {
            let w = self.current_word();
            VmView {
                here: if w.dfa <= self.mem.len() {
                    w.dfa as nat
                } else {
                    self.here
                },
                code_here: w.cfa,
                words: self.words.take(self.state.word_pointer as int),
                symbols: if w.symbol.id <= self.symbols.len() {
                    self.symbols.take(w.symbol.id as int)
                } else {
                    self.symbols
                },
                ..self
            }
        } else {
            self.abort_with(Exception::UndefinedWord)
        }
    }
}

impl VM {
    /// The inline operand lies in data space.
    fn operand_ok(&self) -> (r: bool)
        requires
            self.wf(),
        ensures
            r == self@.operand_ok(),
    {
        let ip = self.state.instruction_pointer;
        let cap = self.data_space.capacity();
        ip <= cap && 4 <= cap - ip
    }

    /// The inline operand.
    fn operand(&self) -> (r: i32)
        requires
            self.wf(),
            self@.operand_ok(),
        ensures
            r == self@.operand(),
    {
        self.data_space.get_i32(self.state.instruction_pointer)
    }

    /// Step over the inline operand.
    fn skip_operand(&mut self)
        requires
            old(self).wf(),
            old(self)@.operand_ok(),
        ensures
            final(self).wf(),
            final(self)@ == old(self)@.skip_operand(),
    {
        self.state.instruction_pointer = self.state.instruction_pointer + 4;
    }

    /// Branch to the inline operand.
    fn jump(&mut self)
        requires
            old(self).wf(),
            old(self)@.operand_ok(),
        ensures
            final(self).wf(),
            final(self)@ == old(self)@.jump(),
    {
        let target = self.operand();
        self.state.instruction_pointer = target as usize;
    }

    /// ( -- x ) Push the inline operand and step over it.
    pub fn lit(&mut self)
        requires
            old(self).wf(),
        ensures
            final(self).wf(),
            final(self)@ == old(self)@.lit(),
    {
        if self.operand_ok() {
            let v = self.operand();
            self.s_stk.push(v as isize);
            self.skip_operand();
        } else {
            self.abort_with(Exception::InvalidMemoryAddress);
        }
    }

    /// Branch to the inline operand.
    pub fn branch(&mut self)
        requires
            old(self).wf(),
        ensures
            final(self).wf(),
            final(self)@ == old(self)@.branch(),
    {
        if self.operand_ok() {
            self.jump();
        } else {
            self.abort_with(Exception::InvalidMemoryAddress);
        }
    }

    /// ( x -- ) Branch to the inline operand when `x` is zero.
    pub fn zero_branch(&mut self)
        requires
            old(self).wf(),
        ensures
            final(self).wf(),
            final(self)@ == old(self)@.zero_branch(),
    {
        let v = self.s_stk.pop();
        if !self.operand_ok() {
            self.abort_with(Exception::InvalidMemoryAddress);
        } else if v == 0 {
            self.jump();
        } else {
            self.skip_operand();
        }
    }

    /// ( n1 n2 -- ) ( R: -- addr n1 n2 ) Enter a counted loop.
    pub fn do_runtime(&mut self)
        requires
            old(self).wf(),
        ensures
            final(self).wf(),
            final(self)@ == old(self)@.do_runtime(),
    {
        if self.operand_ok() {
            let ip = self.state.instruction_pointer;
            self.r_stk.push(ip as isize);
            self.skip_operand();
            self.two_to_r();
        } else {
            self.abort_with(Exception::InvalidMemoryAddress);
        }
    }

    /// ( n1 n2 -- ) Enter a counted loop unless `n1` equals `n2`.
    pub fn qdo_runtime(&mut self)
        requires
            old(self).wf(),
        ensures
            final(self).wf(),
            final(self)@ == old(self)@.qdo_runtime(),
    {
        let (n1, n2) = self.s_stk.pop2();
        if !self.operand_ok() {
            self.abort_with(Exception::InvalidMemoryAddress);
        } else if n1 == n2 {
            self.jump();
        } else {
            let ip = self.state.instruction_pointer;
            self.r_stk.push(ip as isize);
            self.r_stk.push(n1);
            self.r_stk.push(n2);
            self.skip_operand();
        }
    }

    /// ( R: addr n i -- addr n i+1 | ) The end of a `do ... loop`.
    pub fn loop_runtime(&mut self)
        requires
            old(self).wf(),
        ensures
            final(self).wf(),
            final(self)@ == old(self)@.loop_runtime(),
    {
        let (rn, rt) = self.r_stk.pop2();
        if !self.operand_ok() {
            self.abort_with(Exception::InvalidMemoryAddress);
        } else if (rt as i128) + 1 < (rn as i128) {
            self.r_stk.push(rn);
            self.r_stk.push(rt + 1);
            self.jump();
        } else {
            self.r_stk.drop_n(1);
            self.skip_operand();
        }
    }

    /// ( n -- ) ( R: addr lim i -- addr lim i+n | ) The end of a
    /// `do ... +loop`.
    pub fn plus_loop_runtime(&mut self)
        requires
            old(self).wf(),
        ensures
            final(self).wf(),
            final(self)@ == old(self)@.plus_loop_runtime(),
    {
        let (rn, rt) = self.r_stk.pop2();
        let t = self.s_stk.pop();
        let sum: i128 = (rt as i128) + (t as i128);
        if !self.operand_ok() {
            self.abort_with(Exception::InvalidMemoryAddress);
        } else if sum < (rn as i128) {
            self.r_stk.push(rn);
            self.r_stk.push(sum as isize);
            self.jump();
        } else {
            self.r_stk.drop_n(1);
            self.skip_operand();
        }
    }

    /// ( R: addr n i -- ) Leave the innermost loop.
    pub fn leave(&mut self)
        requires
            old(self).wf(),
        ensures
            final(self).wf(),
            final(self)@ == old(self)@.leave(),
    {
        let (third, _, _) = self.r_stk.pop3();
        if self.r_stk.underflow() {
            self.abort_with(Exception::ReturnStackUnderflow);
        } else {
            let cap = self.data_space.capacity();
            if 0 <= third && third as usize <= cap && 4 <= cap - third as usize {
                let target = self.data_space.get_i32(third as usize);
                self.state.instruction_pointer = target as usize;
            } else {
                self.abort_with(Exception::InvalidMemoryAddress);
            }
        }
    }

    /// ( R: addr -- ) Return to the calling definition.
    pub fn exit(&mut self)
        requires
            old(self).wf(),
        ensures
            final(self).wf(),
            final(self)@ == old(self)@.exit(),
    {
        let ip = self.r_stk.pop();
        self.state.instruction_pointer = ip as usize;
    }

    /// ( -- c-addr u ) The string compiled inline.
    pub fn s_quote_runtime(&mut self)
        requires
            old(self).wf(),
        ensures
            final(self).wf(),
            final(self)@ == old(self)@.s_quote_runtime(),
    {
        if !self.operand_ok() {
            self.abort_with(Exception::InvalidMemoryAddress);
            return;
        }
        let cnt = self.operand();
        let start = self.state.instruction_pointer + 4;
        let cap = self.data_space.capacity();
        if cnt < 0 || cnt as usize > cap - start {
            self.abort_with(Exception::InvalidMemoryAddress);
        } else {
            self.s_stk.push(start as isize);
            self.s_stk.push(cnt as isize);
            let end = start + cnt as usize;
            self.state.instruction_pointer = DataSpace::aligned(end);
        }
    }

    /// ( F: -- r ) The floating-point number compiled inline: ask for it
    /// to be pushed, and continue after it.
    pub fn flit(&mut self)
        requires
            old(self).wf(),
        ensures
            final(self).wf(),
            final(self)@ == old(self)@.flit(),
    {
        let ip = self.state.instruction_pointer;
        let cap = self.data_space.capacity();
        if ip > cap {
            self.abort_with(Exception::InvalidMemoryAddress);
            return;
        }
        let p = DataSpace::aligned_f64(ip);
        if p <= cap && 8 <= cap - p {
            let bits = self.data_space.get_cell(p);
            self.state.instruction_pointer = p + 8;
            self.request = Some(Request::PushFloat(bits));
        } else {
            self.abort_with(Exception::InvalidMemoryAddress);
        }
    }

    /// ( R: -- addr ) Call the colon definition being executed.
    pub fn nest(&mut self)
        requires
            old(self).wf(),
        ensures
            final(self).wf(),
            final(self)@ == old(self)@.nest(),
    {
        let wp = self.state.word_pointer;
        if wp < self.wordlist.len() {
            let ip = self.state.instruction_pointer;
            self.r_stk.push(ip as isize);
            self.state.instruction_pointer = self.wordlist[wp].dfa;
        } else {
            self.abort_with(Exception::UndefinedWord);
        }
    }

    /// ( -- a-addr ) The data field of the variable being executed.
    pub fn p_var(&mut self)
        requires
            old(self).wf(),
        ensures
            final(self).wf(),
            final(self)@ == old(self)@.p_var(),
    {
        let wp = self.state.word_pointer;
        if wp < self.wordlist.len() {
            let dfa = self.wordlist[wp].dfa;
            self.s_stk.push(dfa as isize);
        } else {
            self.abort_with(Exception::UndefinedWord);
        }
    }

    /// ( -- x ) The value of the constant being executed.
    pub fn p_const(&mut self)
        requires
            old(self).wf(),
        ensures
            final(self).wf(),
            final(self)@ == old(self)@.p_const(),
    {
        let wp = self.state.word_pointer;
        if wp >= self.wordlist.len() {
            self.abort_with(Exception::UndefinedWord);
            return;
        }
        let dfa = self.wordlist[wp].dfa;
        let cap = self.data_space.capacity();
        if dfa <= cap && 4 <= cap - dfa {
            let value = self.data_space.get_i32(dfa);
            self.s_stk.push(value as isize);
        } else {
            self.abort_with(Exception::InvalidMemoryAddress);
        }
    }

    /// Forget the marker being executed and everything defined after it.
    pub fn unmark(&mut self)
        requires
            old(self).wf(),
        ensures
            final(self).wf(),
            final(self)@ == old(self)@.unmark(),
    {
        let wp = self.state.word_pointer;
        if wp < self.wordlist.len() {
            let w: Word = self.wordlist[wp];
            self.data_space.truncate(w.dfa);
            self.code_space.truncate(w.cfa);
            self.wordlist.truncate(wp);
            let ghost old_symbols = self.symbols.deep_view();
            self.symbols.truncate(w.symbol.id);
            proof {
                if w.symbol.id <= old_symbols.len() {
                    assert(self.symbols.deep_view() =~= old_symbols.take(w.symbol.id as int));
                } else {
                    assert(self.symbols.deep_view() =~= old_symbols);
                }
            }
        } else {
            self.abort_with(Exception::UndefinedWord);
        }
    }
}

} // verus!
