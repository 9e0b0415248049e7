//! The part of the floating-point words that concerns data space: float
//! sizes and alignment, storing and fetching floats, and float constants.
//!
//! A float is held in data space as the eight bytes of its bit pattern at a
//! float-aligned address. The float stack belongs to the program around the
//! machine: a word that takes a float from it or gives one to it raises a
//! request, and the program completes it with the bit pattern.

use vstd::prelude::*;

use crate::exception::Exception;
use crate::memory::{aligned_to, cell_value, write_cell, DataSpace};
use crate::vm::{Action, Compilation, Request, VmView, VM};

verus! {

impl VmView {
    /// ( a1 -- a2 ) `float+`: add the size of a float, wrapping.
    pub open spec fn float_plus(self) -> VmView {
        self.with_s(self.s.drop_n(1).push(self.s.peek(1).wrapping_add(8)))
    }

    /// ( n1 -- n2 ) `floats`: the size of `n1` floats, wrapping.
    pub open spec fn floats(self) -> VmView {
        self.with_s(self.s.drop_n(1).push(self.s.peek(1).wrapping_mul(8)))
    }

    /// ( a -- a' ) `faligned`: the first float-aligned address at or after
    /// `a`, taken as unsigned; an address too near the top wraps to 0.
    pub open spec fn faligned(self) -> VmView {
        let a = self.s.peek(1) as usize;
        let r = if a as int + 7 > usize::MAX {
            0int
        } else {
            aligned_to(a as int, 8)
        };
        self.with_s(self.s.drop_n(1).push(r as usize as isize))
    }

    /// `falign`: align the data-space pointer for a float, if the aligned
    /// pointer lies within data space.
    pub open spec fn falign(self) -> VmView {
        let p = aligned_to(self.here as int, 8);
        if p <= self.mem.len() {
            VmView { here: p as nat, ..self }
        } else {
            self
        }
    }

    /// The float-aligned address at or after `a`, if a float there lies in
    /// data space.
    pub open spec fn float_addr(self, a: isize) -> Option<int> {
        let p = aligned_to(a as usize as int, 8);
        if p + 8 <= self.mem.len() {
            Some(p)
        } else {
            None
        }
    }

    /// ( a -- ) ( F: -- r ) `f@`: ask for the float stored at the aligned
    /// address to be pushed; an address outside data space aborts with
    /// `InvalidMemoryAddress`.
    pub open spec fn ffetch(self) -> VmView {
        let v = self.with_s(self.s.drop_n(1));
        match self.float_addr(self.s.peek(1)) {
            Some(p) => VmView { request: Some(Request::PushFloat(cell_value(self.mem, p))), ..v },
            None => v.abort_with(Exception::InvalidMemoryAddress),
        }
    }

    /// ( a -- ) ( F: r -- ) `f!`: ask for the float on top of the float
    /// stack, to store it at the aligned address; an address outside data
    /// space aborts with `InvalidMemoryAddress`.
    pub open spec fn fstore(self) -> VmView {
        let v = self.with_s(self.s.drop_n(1));
        match self.float_addr(self.s.peek(1)) {
            Some(p) => VmView { request: Some(Request::StoreFloat(p as usize)), ..v },
            None => v.abort_with(Exception::InvalidMemoryAddress),
        }
    }

    /// A pending `f!` completed with the bit pattern of the float taken
    /// from the float stack.
    pub open spec fn complete_store_float(self, bits: u64) -> VmView {
        match self.request {
            Some(Request::StoreFloat(p)) => if p + 8 <= self.mem.len() {
                VmView { mem: write_cell(self.mem, p as int, bits), request: None, ..self }
            } else {
                VmView { request: None, ..self }
            },
            _ => self,
        }
    }

    /// ( "name" -- ) ( F: r -- ) `fconstant`: ask for the float on top of
    /// the float stack, to define a constant of it.
    pub open spec fn fconstant(self) -> VmView {
        VmView { request: Some(Request::FConstant), ..self }
    }

    /// The float with bit pattern `bits` laid down at the next
    /// float-aligned address, or `DictionaryOverflow`.
    pub open spec fn lay_float(self, bits: u64) -> VmView {
        let p = aligned_to(self.here as int, 8);
        if p + 8 <= self.mem.len() {
            VmView { mem: write_cell(self.mem, p, bits), here: (p + 8) as nat, ..self }
        } else {
            self.abort_with(Exception::DictionaryOverflow)
        }
    }

    /// A pending `fconstant` completed with the bit pattern of the float
    /// taken from the float stack: a word named by the next token, whose
    /// data field holds the float at its first float-aligned address.
    pub open spec fn complete_fconstant(self, bits: u64) -> VmView {
        match self.request {
            Some(Request::FConstant) => {
                let v = VmView { request: None, ..self }.define(Action::FConst, Compilation::Word);
                if v.error is None {
                    v.lay_float(bits)
                } else {
                    v
                }
            },
            _ => self,
        }
    }

    /// ( F: -- r ) The float constant being executed: ask for the float at
    /// the first float-aligned address of its data field to be pushed.
    pub open spec fn p_fconst(self) -> VmView {
        if !self.current_word_ok() {
            self.abort_with(Exception::UndefinedWord)
        } else {
            let p = aligned_to(self.current_word().dfa as int, 8);
            if p + 8 <= self.mem.len() {
                VmView { request: Some(Request::PushFloat(cell_value(self.mem, p))), ..self }
            } else {
                self.abort_with(Exception::InvalidMemoryAddress)
            }
        }
    }
}

impl VM {
    /// ( a1 -- a2 ) `float+`
    pub fn float_plus(&mut self)
        requires
            old(self).wf(),
        ensures
            final(self).wf(),
            final(self)@ == old(self)@.float_plus(),
    {
        let a = self.s_stk.pop();
        self.s_stk.push(a.wrapping_add(8));
    }

    /// ( n1 -- n2 ) `floats`
    pub fn floats(&mut self)
        requires
            old(self).wf(),
        ensures
            final(self).wf(),
            final(self)@ == old(self)@.floats(),
    {
        let n = self.s_stk.pop();
        self.s_stk.push(n.wrapping_mul(8));
    }

    /// ( a -- a' ) `faligned`
    pub fn faligned(&mut self)
        requires
            old(self).wf(),
        ensures
            final(self).wf(),
            final(self)@ == old(self)@.faligned(),
    {
        let a = self.s_stk.pop() as usize;
        let r = if a > usize::MAX - 7 {
            0
        } else {
            DataSpace::aligned_f64(a)
        };
        self.s_stk.push(r as isize);
    }

    /// `falign`
    pub fn falign(&mut self)
        requires
            old(self).wf(),
        ensures
            final(self).wf(),
            final(self)@ == old(self)@.falign(),
    {
        self.data_space.align_f64();
    }

    /// The float-aligned address at or after `a`, if a float there lies in
    /// data space.
    fn float_addr(&self, a: isize) -> (r: Option<usize>)
        requires
            self.wf(),
        ensures
            r matches Some(p) ==> self@.float_addr(a) == Some(p as int),
            r is None ==> self@.float_addr(a) is None,
    {
        let u = a as usize;
        let cap = self.data_space.capacity();
        if u > cap {
            return None;
        }
        let p = DataSpace::aligned_f64(u);
        if p <= cap && 8 <= cap - p {
            Some(p)
        } else {
            None
        }
    }

    /// ( a -- ) ( F: -- r ) `f@`
    pub fn ffetch(&mut self)
        requires
            old(self).wf(),
        ensures
            final(self).wf(),
            final(self)@ == old(self)@.ffetch(),
    {
        let a = self.s_stk.pop();
        match self.float_addr(a) {
            Some(p) => {
                let bits = self.data_space.get_cell(p);
                self.request = Some(Request::PushFloat(bits));
            },
            None => {
                self.abort_with(Exception::InvalidMemoryAddress);
            },
        }
    }

    /// ( a -- ) ( F: r -- ) `f!`
    pub fn fstore(&mut self)
        requires
            old(self).wf(),
        ensures
            final(self).wf(),
            final(self)@ == old(self)@.fstore(),
    {
        let a = self.s_stk.pop();
        match self.float_addr(a) {
            Some(p) => {
                self.request = Some(Request::StoreFloat(p));
            },
            None => {
                self.abort_with(Exception::InvalidMemoryAddress);
            },
        }
    }

    /// Complete a pending `f!` with the bit pattern of the float taken from
    /// the float stack.
    pub fn complete_store_float(&mut self, bits: u64)
        requires
            old(self).wf(),
        ensures
            final(self).wf(),
            final(self)@ == old(self)@.complete_store_float(bits),
    {
        if let Some(Request::StoreFloat(p)) = self.request {
            let cap = self.data_space.capacity();
            if p <= cap && 8 <= cap - p {
                self.data_space.put_cell(p, bits);
            }
            self.request = None;
        }
    }

    /// ( "name" -- ) ( F: r -- ) `fconstant`
    pub fn fconstant(&mut self)
        requires
            old(self).wf(),
        ensures
            final(self).wf(),
            final(self)@ == old(self)@.fconstant(),
    {
        self.request = Some(Request::FConstant);
    }

    /// Lay down the float with bit pattern `bits` at the next float-aligned
    /// address.
    fn lay_float(&mut self, bits: u64)
        requires
            old(self).wf(),
        ensures
            final(self).wf(),
            final(self)@ == old(self)@.lay_float(bits),
    {
        let here = self.data_space.here();
        let cap = self.data_space.capacity();
        if cap - here < 8 {
            self.abort_with(Exception::DictionaryOverflow);
            return;
        }
        let p = DataSpace::aligned_f64(here);
        if p <= cap && 8 <= cap - p {
            self.data_space.put_cell(p, bits);
            self.data_space.set_here(p + 8);
        } else {
            self.abort_with(Exception::DictionaryOverflow);
        }
    }

    /// Complete a pending `fconstant` with the bit pattern of the float
    /// taken from the float stack.
    pub fn complete_fconstant(&mut self, bits: u64)
        requires
            old(self).wf(),
        ensures
            final(self).wf(),
            final(self)@ == old(self)@.complete_fconstant(bits),
    {
        if let Some(Request::FConstant) = self.request {
            self.request = None;
            self.define(Action::FConst, Compilation::Word);
            if self.last_error.is_none() {
                self.lay_float(bits);
            }
        }
    }

    /// ( F: -- r ) The float constant being executed.
    pub fn p_fconst(&mut self)
        requires
            old(self).wf(),
        ensures
            final(self).wf(),
            final(self)@ == old(self)@.p_fconst(),
    {
        let wp = self.state.word_pointer;
        if wp >= self.wordlist.len() {
            self.abort_with(Exception::UndefinedWord);
            return;
        }
        let dfa = self.wordlist[wp].dfa;
        let cap = self.data_space.capacity();
        if dfa > cap {
            self.abort_with(Exception::InvalidMemoryAddress);
            return;
        }
        let p = DataSpace::aligned_f64(dfa);
        if p <= cap && 8 <= cap - p {
            let bits = self.data_space.get_cell(p);
            self.request = Some(Request::PushFloat(bits));
        } else {
            self.abort_with(Exception::InvalidMemoryAddress);
        }
    }
}

} // verus!
