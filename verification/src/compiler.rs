//! The immediate words that compile control structures into the current
//! definition.
//!
//! An unresolved forward branch is laid down with a zero operand and its
//! address is kept on the control-flow stack; the word that closes the
//! structure patches the field before that address with the branch target.
//! A marker of the wrong kind on the control-flow stack, or a stack popped
//! below its bottom, aborts with `ControlStructureMismatch`.

use vstd::prelude::*;

use crate::control::has_do;
use crate::exception::Exception;
use crate::kernel::Control;
use crate::memory_words::underflowed;
use crate::memory::{aligned_to, write_cell, DataSpace};
use crate::vm::{Request, VmView, VM};

verus! {

impl VmView {
    /// Compile the index of word `idx`.
    pub open spec fn compile_word(self, idx: usize) -> VmView {
        if self.room(4) {
            self.comp(idx as u32)
        } else {
            self.abort_with(Exception::DictionaryOverflow)
        }
    }

    /// Compile `lit` followed by the value `n`.
    pub open spec fn compile_integer(self, n: isize) -> VmView {
        if self.room(8) {
            self.comp(self.refs.idx_lit as u32).comp((n as i32) as u32)
        } else {
            self.abort_with(Exception::DictionaryOverflow)
        }
    }

    /// `flit` and the floating-point number with bit pattern `bits`, at the
    /// next float-aligned address after it.
    pub open spec fn compile_float(self, bits: u64) -> VmView {
        let p = aligned_to((self.here + 4) as int, 8);
        if p + 8 <= self.mem.len() {
            let v = self.comp(self.refs.idx_flit as u32);
            VmView { mem: write_cell(v.mem, p, bits), here: (p + 8) as nat, ..v }
        } else {
            self.abort_with(Exception::DictionaryOverflow)
        }
    }

    /// A pending request to compile a floating-point literal, completed
    /// with its bit pattern `bits`.
    pub open spec fn complete_compile_float(self, bits: u64) -> VmView {
        match self.request {
            Some(Request::CompileFloat(_)) => VmView { request: None, ..self }.compile_float(bits),
            _ => self,
        }
    }

    /// Compile the word `idx` and a zero operand to be patched later.
    pub open spec fn comp_forward(self, idx: usize) -> VmView {
        self.comp(idx as u32).comp(0)
    }

    /// `if`: a `0branch` whose target `then` or `else` will fill in.
    pub open spec fn imm_if(self) -> VmView {
        if self.room(8) {
            let v = self.comp_forward(self.refs.idx_zero_branch);
            v.with_c(v.c.push(Control::If(v.here as usize)))
        } else {
            self.abort_with(Exception::DictionaryOverflow)
        }
    }

    /// `else`: a `branch` to be resolved by `then`; the `if` branches here.
    pub open spec fn imm_else(self) -> VmView {
        let top = self.c.peek(1);
        let v = self.with_c(self.c.drop_n(1));
        match top {
            Control::If(p) => if underflowed(v.c) {
                v.abort_with(Exception::ControlStructureMismatch)
            } else if !v.room(8) {
                v.abort_with(Exception::DictionaryOverflow)
            } else if !v.patch_ok(p) {
                v.abort_with(Exception::InvalidMemoryAddress)
            } else {
                let w = v.comp_forward(v.refs.idx_branch);
                w.with_c(w.c.push(Control::Else(w.here as usize))).patch(p)
            },
            _ => v.abort_with(Exception::ControlStructureMismatch),
        }
    }

    /// `then`: the open `if` or `else` branches here.
    pub open spec fn imm_then(self) -> VmView {
        let top = self.c.peek(1);
        let v = self.with_c(self.c.drop_n(1));
        match top {
            Control::If(p) | Control::Else(p) => if underflowed(v.c) {
                v.abort_with(Exception::ControlStructureMismatch)
            } else if !v.patch_ok(p) {
                v.abort_with(Exception::InvalidMemoryAddress)
            } else {
                v.patch(p)
            },
            _ => v.abort_with(Exception::ControlStructureMismatch),
        }
    }

    /// `case`: open a case structure.
    pub open spec fn imm_case(self) -> VmView {
        self.with_c(self.c.push(Control::Case))
    }

    /// `of`: `over = 0branch` to the next clause, then `drop`.
    pub open spec fn imm_of(self) -> VmView {
        let top = self.c.peek(1);
        let v = self.with_c(self.c.drop_n(1));
        match top {
            Control::Case | Control::Endof(_) => {
                let v2 = v.with_c(v.c.push(top));
                if underflowed(v2.c) {
                    v2.abort_with(Exception::ControlStructureMismatch)
                } else if !v2.room(20) {
                    v2.abort_with(Exception::DictionaryOverflow)
                } else {
                    let w = v2.comp(v2.refs.idx_over as u32).comp(v2.refs.idx_equal as u32).comp_forward(
                        v2.refs.idx_zero_branch,
                    );
                    let w2 = w.with_c(w.c.push(Control::Of(w.here as usize)));
                    w2.comp(w2.refs.idx_drop as u32)
                }
            },
            _ => v.abort_with(Exception::ControlStructureMismatch),
        }
    }

    /// `endof`: a `branch` to the end of the case; the `of` test branches
    /// here.
    pub open spec fn imm_endof(self) -> VmView {
        let top = self.c.peek(1);
        let v = self.with_c(self.c.drop_n(1));
        match top {
            Control::Of(p) => if underflowed(v.c) {
                v.abort_with(Exception::ControlStructureMismatch)
            } else if !v.room(8) {
                v.abort_with(Exception::DictionaryOverflow)
            } else if !v.patch_ok(p) {
                v.abort_with(Exception::InvalidMemoryAddress)
            } else {
                let w = v.comp_forward(v.refs.idx_branch);
                w.with_c(w.c.push(Control::Endof(w.here as usize))).patch(p)
            },
            _ => v.abort_with(Exception::ControlStructureMismatch),
        }
    }

    /// Resolve the `endof` branches on the control-flow stack down to the
    /// `case` that opened them.
    pub open spec fn resolve_endofs(self) -> VmView
        decreases self.c.len,
    {
        let top = self.c.peek(1);
        let v = self.with_c(self.c.drop_n(1));
        match top {
            Control::Case => if underflowed(v.c) {
                v.abort_with(Exception::ControlStructureMismatch)
            } else {
                v
            },
            Control::Endof(p) => if underflowed(v.c) {
                v.abort_with(Exception::ControlStructureMismatch)
            } else if !v.patch_ok(p) {
                v.abort_with(Exception::InvalidMemoryAddress)
            } else if v.c.len < self.c.len {
                v.patch(p).resolve_endofs()
            } else {
                v
            },
            _ => v.abort_with(Exception::ControlStructureMismatch),
        }
    }

    /// `endcase`: `drop` the selector; every `endof` branches here.
    pub open spec fn imm_endcase(self) -> VmView {
        if self.room(4) {
            self.comp(self.refs.idx_drop as u32).resolve_endofs()
        } else {
            self.abort_with(Exception::DictionaryOverflow)
        }
    }

    /// `begin`: remember the start of the loop.
    pub open spec fn imm_begin(self) -> VmView {
        self.with_c(self.c.push(Control::Begin(self.here as usize)))
    }

    /// `while`: a `0branch` to be resolved by `repeat`.
    pub open spec fn imm_while(self) -> VmView {
        if self.room(8) {
            let v = self.comp_forward(self.refs.idx_zero_branch);
            v.with_c(v.c.push(Control::While(v.here as usize)))
        } else {
            self.abort_with(Exception::DictionaryOverflow)
        }
    }

    /// `repeat`: branch back to `begin`; the `while` test exits here.
    pub open spec fn imm_repeat(self) -> VmView {
        let below = self.c.peek(2);
        let top = self.c.peek(1);
        let v = self.with_c(self.c.drop_n(2));
        match (below, top) {
            (Control::Begin(b), Control::While(p)) => if underflowed(v.c) {
                v.abort_with(Exception::ControlStructureMismatch)
            } else if !v.room(8) {
                v.abort_with(Exception::DictionaryOverflow)
            } else if !v.patch_ok(p) {
                v.abort_with(Exception::InvalidMemoryAddress)
            } else {
                v.comp(v.refs.idx_branch as u32).comp((b as i32) as u32).patch(p)
            },
            _ => v.abort_with(Exception::ControlStructureMismatch),
        }
    }

    /// `again`: branch back to `begin`.
    pub open spec fn imm_again(self) -> VmView {
        let top = self.c.peek(1);
        let v = self.with_c(self.c.drop_n(1));
        match top {
            Control::Begin(b) => if underflowed(v.c) {
                v.abort_with(Exception::ControlStructureMismatch)
            } else if !v.room(8) {
                v.abort_with(Exception::DictionaryOverflow)
            } else {
                v.comp(v.refs.idx_branch as u32).comp((b as i32) as u32)
            },
            _ => v.abort_with(Exception::ControlStructureMismatch),
        }
    }

    /// `do` (or `?do` with `qdo`): the loop entry, whose operand `loop`
    /// fills in with the exit address.
    pub open spec fn imm_do_with(self, idx: usize) -> VmView {
        if self.room(8) {
            let v = self.comp_forward(idx);
            v.with_c(v.c.push(Control::Do(v.here as usize, v.here as usize)))
        } else {
            self.abort_with(Exception::DictionaryOverflow)
        }
    }

    /// `loop` (or `+loop`): the loop end, branching back to the body; the
    /// loop entry exits here.
    pub open spec fn imm_loop_with(self, idx: usize) -> VmView {
        let top = self.c.peek(1);
        let v = self.with_c(self.c.drop_n(1));
        match top {
            Control::Do(d, _) => if underflowed(v.c) {
                v.abort_with(Exception::ControlStructureMismatch)
            } else if !v.room(8) {
                v.abort_with(Exception::DictionaryOverflow)
            } else if !v.patch_ok(d) {
                v.abort_with(Exception::InvalidMemoryAddress)
            } else {
                v.comp(idx as u32).comp((d as i32) as u32).patch(d)
            },
            _ => v.abort_with(Exception::ControlStructureMismatch),
        }
    }

    /// `recurse`: call the definition being compiled, the last one.
    pub open spec fn imm_recurse(self) -> VmView {
        if self.words.len() == 0 {
            self.abort_with(Exception::UndefinedWord)
        } else {
            self.compile_word((self.words.len() - 1) as usize)
        }
    }

    /// How `leave` is compiled: only inside a loop.
    pub open spec fn compile_leave(self, idx: usize) -> VmView {
        if has_do(self.c) {
            self.compile_word(idx)
        } else {
            self.abort_with(Exception::ControlStructureMismatch)
        }
    }
}

impl VM {
    /// There are `n` free bytes at the data-space pointer.
    fn room(&self, n: usize) -> (r: bool)
        requires
            self.wf(),
        ensures
            r == self@.room(n as int),
    {
        let here = self.data_space.here();
        let cap = self.data_space.capacity();
        n <= cap - here
    }

    /// Lay down the 32-bit field `v` at the data-space pointer.
    fn comp(&mut self, v: u32)
        requires
            old(self).wf(),
            old(self)@.room(4),
        ensures
            final(self).wf(),
            final(self)@ == old(self)@.comp(v),
    {
        self.data_space.compile_u32(v);
    }

    /// Lay down word `idx` and a zero operand.
    fn comp_forward(&mut self, idx: usize)
        requires
            old(self).wf(),
            old(self)@.room(8),
        ensures
            final(self).wf(),
            final(self)@ == old(self)@.comp_forward(idx),
    {
        self.comp(idx as u32);
        self.comp(0);
    }

    /// Set the field before `p` to the data-space pointer.
    fn patch(&mut self, p: usize)
        requires
            old(self).wf(),
            old(self)@.patch_ok(p),
        ensures
            final(self).wf(),
            final(self)@ == old(self)@.patch(p),
    {
        let here = self.data_space.here();
        self.data_space.put_i32(here as i32, p - 4);
    }

    /// The field before `p` can hold a branch target.
    fn patch_ok(&self, p: usize) -> (r: bool)
        requires
            self.wf(),
        ensures
            r == self@.patch_ok(p),
    {
        4 <= p && p <= self.data_space.capacity()
    }

    /// Compile the index of word `idx`.
    pub fn compile_word(&mut self, idx: usize)
        requires
            old(self).wf(),
        ensures
            final(self).wf(),
            final(self)@ == old(self)@.compile_word(idx),
    {
        if self.room(4) {
            self.comp(idx as u32);
        } else {
            self.abort_with(Exception::DictionaryOverflow);
        }
    }

    /// Compile `lit` followed by the value `n`.
    pub fn compile_integer(&mut self, n: isize)
        requires
            old(self).wf(),
        ensures
            final(self).wf(),
            final(self)@ == old(self)@.compile_integer(n),
    {
        if self.room(8) {
            let idx = self.references.idx_lit;
            self.comp(idx as u32);
            self.comp((n as i32) as u32);
        } else {
            self.abort_with(Exception::DictionaryOverflow);
        }
    }

    /// Compile `flit` and the floating-point number with bit pattern
    /// `bits`.
    pub fn compile_float(&mut self, bits: u64)
        requires
            old(self).wf(),
        ensures
            final(self).wf(),
            final(self)@ == old(self)@.compile_float(bits),
    {
        let here = self.data_space.here();
        let cap = self.data_space.capacity();
        if cap - here < 4 {
            self.abort_with(Exception::DictionaryOverflow);
            return;
        }
        let p = DataSpace::aligned_f64(here + 4);
        if p <= cap && cap - p >= 8 {
            let idx = self.references.idx_flit;
            self.comp(idx as u32);
            self.data_space.put_cell(p, bits);
            self.data_space.set_here(p + 8);
        } else {
            self.abort_with(Exception::DictionaryOverflow);
        }
    }

    /// Complete a request to compile a floating-point literal with its bit
    /// pattern `bits`.
    pub fn complete_compile_float(&mut self, bits: u64)
        requires
            old(self).wf(),
        ensures
            final(self).wf(),
            final(self)@ == old(self)@.complete_compile_float(bits),
    {
        if let Some(Request::CompileFloat(_)) = self.request {
            self.request = None;
            self.compile_float(bits);
        }
    }

    /// `if`
    pub fn imm_if(&mut self)
        requires
            old(self).wf(),
        ensures
            final(self).wf(),
            final(self)@ == old(self)@.imm_if(),
    {
        if self.room(8) {
            let idx = self.references.idx_zero_branch;
            self.comp_forward(idx);
            let here = self.data_space.here();
            self.c_stk.push(Control::If(here));
        } else {
            self.abort_with(Exception::DictionaryOverflow);
        }
    }

    /// `else`
    pub fn imm_else(&mut self)
        requires
            old(self).wf(),
        ensures
            final(self).wf(),
            final(self)@ == old(self)@.imm_else(),
    {
        let top = self.c_stk.pop();
        match top {
            Control::If(p) => {
                if self.c_stk.underflow() {
                    self.abort_with(Exception::ControlStructureMismatch);
                } else if !self.room(8) {
                    self.abort_with(Exception::DictionaryOverflow);
                } else if !self.patch_ok(p) {
                    self.abort_with(Exception::InvalidMemoryAddress);
                } else {
                    let idx = self.references.idx_branch;
                    self.comp_forward(idx);
                    let here = self.data_space.here();
                    self.c_stk.push(Control::Else(here));
                    self.patch(p);
                }
            },
            _ => {
                self.abort_with(Exception::ControlStructureMismatch);
            },
        }
    }

    /// `then`
    pub fn imm_then(&mut self)
        requires
            old(self).wf(),
        ensures
            final(self).wf(),
            final(self)@ == old(self)@.imm_then(),
    {
        let top = self.c_stk.pop();
        match top {
            Control::If(p) | Control::Else(p) => {
                if self.c_stk.underflow() {
                    self.abort_with(Exception::ControlStructureMismatch);
                } else if !self.patch_ok(p) {
                    self.abort_with(Exception::InvalidMemoryAddress);
                } else {
                    self.patch(p);
                }
            },
            _ => {
                self.abort_with(Exception::ControlStructureMismatch);
            },
        }
    }

    /// `case`
    pub fn imm_case(&mut self)
        requires
            old(self).wf(),
        ensures
            final(self).wf(),
            final(self)@ == old(self)@.imm_case(),
    {
        self.c_stk.push(Control::Case);
    }

    /// `of`
    pub fn imm_of(&mut self)
        requires
            old(self).wf(),
        ensures
            final(self).wf(),
            final(self)@ == old(self)@.imm_of(),
    {
        let top = self.c_stk.pop();
        match top {
            Control::Case | Control::Endof(_) => {
                self.c_stk.push(top);
                if self.c_stk.underflow() {
                    self.abort_with(Exception::ControlStructureMismatch);
                } else if !self.room(20) {
                    self.abort_with(Exception::DictionaryOverflow);
                } else {
                    let over = self.references.idx_over;
                    let equal = self.references.idx_equal;
                    let zero_branch = self.references.idx_zero_branch;
                    let drop = self.references.idx_drop;
                    self.comp(over as u32);
                    self.comp(equal as u32);
                    self.comp_forward(zero_branch);
                    let here = self.data_space.here();
                    self.c_stk.push(Control::Of(here));
                    self.comp(drop as u32);
                }
            },
            _ => {
                self.abort_with(Exception::ControlStructureMismatch);
            },
        }
    }

    /// `endof`
    pub fn imm_endof(&mut self)
        requires
            old(self).wf(),
        ensures
            final(self).wf(),
            final(self)@ == old(self)@.imm_endof(),
    {
        let top = self.c_stk.pop();
        match top {
            Control::Of(p) => {
                if self.c_stk.underflow() {
                    self.abort_with(Exception::ControlStructureMismatch);
                } else if !self.room(8) {
                    self.abort_with(Exception::DictionaryOverflow);
                } else if !self.patch_ok(p) {
                    self.abort_with(Exception::InvalidMemoryAddress);
                } else {
                    let idx = self.references.idx_branch;
                    self.comp_forward(idx);
                    let here = self.data_space.here();
                    self.c_stk.push(Control::Endof(here));
                    self.patch(p);
                }
            },
            _ => {
                self.abort_with(Exception::ControlStructureMismatch);
            },
        }
    }

    /// `endcase`
    pub fn imm_endcase(&mut self)
        requires
            old(self).wf(),
        ensures
            final(self).wf(),
            final(self)@ == old(self)@.imm_endcase(),
    {
        if !self.room(4) {
            self.abort_with(Exception::DictionaryOverflow);
            return;
        }
        let drop = self.references.idx_drop;
        self.comp(drop as u32);
        let ghost target = self@.resolve_endofs();
        loop
            invariant_except_break
                self.wf(),
                self@.resolve_endofs() == target,
            ensures
                self.wf(),
                self@ == target,
            decreases self.c_stk.len,
        {
            let ghost before = self@;
            let top = self.c_stk.pop();
            match top {
                Control::Case => {
                    if self.c_stk.underflow() {
                        self.abort_with(Exception::ControlStructureMismatch);
                    }
                    assert(self@ == before.resolve_endofs());
                    break;
                },
                Control::Endof(p) => {
                    if self.c_stk.underflow() {
                        self.abort_with(Exception::ControlStructureMismatch);
                        assert(self@ == before.resolve_endofs());
                        break;
                    } else if !self.patch_ok(p) {
                        self.abort_with(Exception::InvalidMemoryAddress);
                        assert(self@ == before.resolve_endofs());
                        break;
                    }
                    self.patch(p);
                    assert(self.c_stk.len < before.c.len);
                    assert(self@.resolve_endofs() == before.resolve_endofs());
                },
                _ => {
                    self.abort_with(Exception::ControlStructureMismatch);
                    assert(self@ == before.resolve_endofs());
                    break;
                },
            }
        }
    }

    /// `begin`
    pub fn imm_begin(&mut self)
        requires
            old(self).wf(),
        ensures
            final(self).wf(),
            final(self)@ == old(self)@.imm_begin(),
    {
        let here = self.data_space.here();
        self.c_stk.push(Control::Begin(here));
    }

    /// `while`
    pub fn imm_while(&mut self)
        requires
            old(self).wf(),
        ensures
            final(self).wf(),
            final(self)@ == old(self)@.imm_while(),
    {
        if self.room(8) {
            let idx = self.references.idx_zero_branch;
            self.comp_forward(idx);
            let here = self.data_space.here();
            self.c_stk.push(Control::While(here));
        } else {
            self.abort_with(Exception::DictionaryOverflow);
        }
    }

    /// `repeat`
    pub fn imm_repeat(&mut self)
        requires
            old(self).wf(),
        ensures
            final(self).wf(),
            final(self)@ == old(self)@.imm_repeat(),
    {
        let (below, top) = self.c_stk.pop2();
        match (below, top) {
            (Control::Begin(b), Control::While(p)) => {
                if self.c_stk.underflow() {
                    self.abort_with(Exception::ControlStructureMismatch);
                } else if !self.room(8) {
                    self.abort_with(Exception::DictionaryOverflow);
                } else if !self.patch_ok(p) {
                    self.abort_with(Exception::InvalidMemoryAddress);
                } else {
                    let idx = self.references.idx_branch;
                    self.comp(idx as u32);
                    self.comp((b as i32) as u32);
                    self.patch(p);
                }
            },
            _ => {
                self.abort_with(Exception::ControlStructureMismatch);
            },
        }
    }

    /// `again`
    pub fn imm_again(&mut self)
        requires
            old(self).wf(),
        ensures
            final(self).wf(),
            final(self)@ == old(self)@.imm_again(),
    {
        let top = self.c_stk.pop();
        match top {
            Control::Begin(b) => {
                if self.c_stk.underflow() {
                    self.abort_with(Exception::ControlStructureMismatch);
                } else if !self.room(8) {
                    self.abort_with(Exception::DictionaryOverflow);
                } else {
                    let idx = self.references.idx_branch;
                    self.comp(idx as u32);
                    self.comp((b as i32) as u32);
                }
            },
            _ => {
                self.abort_with(Exception::ControlStructureMismatch);
            },
        }
    }

    /// `do`
    pub fn imm_do(&mut self)
        requires
            old(self).wf(),
        ensures
            final(self).wf(),
            final(self)@ == old(self)@.imm_do_with(old(self)@.refs.idx_do),
    {
        let idx = self.references.idx_do;
        self.imm_do_with(idx);
    }

    /// `?do`
    pub fn imm_qdo(&mut self)
        requires
            old(self).wf(),
        ensures
            final(self).wf(),
            final(self)@ == old(self)@.imm_do_with(old(self)@.refs.idx_qdo),
    {
        let idx = self.references.idx_qdo;
        self.imm_do_with(idx);
    }

    /// The loop entry `idx` with an operand to be filled in.
    fn imm_do_with(&mut self, idx: usize)
        requires
            old(self).wf(),
        ensures
            final(self).wf(),
            final(self)@ == old(self)@.imm_do_with(idx),
    {
        if self.room(8) {
            self.comp_forward(idx);
            let here = self.data_space.here();
            self.c_stk.push(Control::Do(here, here));
        } else {
            self.abort_with(Exception::DictionaryOverflow);
        }
    }

    /// `loop`
    pub fn imm_loop(&mut self)
        requires
            old(self).wf(),
        ensures
            final(self).wf(),
            final(self)@ == old(self)@.imm_loop_with(old(self)@.refs.idx_loop),
    {
        let idx = self.references.idx_loop;
        self.imm_loop_with(idx);
    }

    /// `+loop`
    pub fn imm_plus_loop(&mut self)
        requires
            old(self).wf(),
        ensures
            final(self).wf(),
            final(self)@ == old(self)@.imm_loop_with(old(self)@.refs.idx_plus_loop),
    {
        let idx = self.references.idx_plus_loop;
        self.imm_loop_with(idx);
    }

    /// The loop end `idx`, branching back to the body.
    fn imm_loop_with(&mut self, idx: usize)
        requires
            old(self).wf(),
        ensures
            final(self).wf(),
            final(self)@ == old(self)@.imm_loop_with(idx),
    {
        let top = self.c_stk.pop();
        match top {
            Control::Do(d, _) => {
                if self.c_stk.underflow() {
                    self.abort_with(Exception::ControlStructureMismatch);
                } else if !self.room(8) {
                    self.abort_with(Exception::DictionaryOverflow);
                } else if !self.patch_ok(d) {
                    self.abort_with(Exception::InvalidMemoryAddress);
                } else {
                    self.comp(idx as u32);
                    self.comp((d as i32) as u32);
                    self.patch(d);
                }
            },
            _ => {
                self.abort_with(Exception::ControlStructureMismatch);
            },
        }
    }

    /// `recurse`
    pub fn imm_recurse(&mut self)
        requires
            old(self).wf(),
        ensures
            final(self).wf(),
            final(self)@ == old(self)@.imm_recurse(),
    {
        let n = self.wordlist.len();
        if n == 0 {
            self.abort_with(Exception::UndefinedWord);
        } else {
            self.compile_word(n - 1);
        }
    }

    /// Some loop on the control-flow stack is still open.
    fn leave_part(&self) -> (r: bool)
        ensures
            r == has_do(self@.c),
    {
        let n = self.c_stk.len;
        let mut k: u8 = n;
        while k > 0
            invariant
                k <= n,
                n == self.c_stk.len,
                forall|j: int| k <= j < n ==> !(#[trigger] self.c_stk.inner@[j] is Do),
            decreases k,
        {
            k = k - 1;
            match self.c_stk.inner[k as usize] {
                Control::Do(_, _) => {
                    return true;
                },
                _ => {},
            }
        }
        false
    }

    /// How `leave` is compiled: only inside a loop.
    pub fn compile_leave(&mut self, idx: usize)
        requires
            old(self).wf(),
        ensures
            final(self).wf(),
            final(self)@ == old(self)@.compile_leave(idx),
    {
        if self.leave_part() {
            self.compile_word(idx);
        } else {
            self.abort_with(Exception::ControlStructureMismatch);
        }
    }
}

} // verus!
