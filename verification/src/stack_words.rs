//! Primitives that work on the data and return stacks.

use vstd::prelude::*;

use crate::kernel::State;
use crate::vm::{VmView, VM, FALSE, TRUE};

verus! {

impl VmView {
    /// ( -- ) No operation.
    pub open spec fn noop(self) -> VmView {
        self
    }

    /// ( -- true ) Return a true flag.
    pub open spec fn p_true(self) -> VmView {
        self.with_s(self.s.push(TRUE))
    }

    /// ( -- false ) Return a false flag.
    pub open spec fn p_false(self) -> VmView {
        self.with_s(self.s.push(FALSE))
    }

    /// ( x -- x x )
    pub open spec fn dup(self) -> VmView {
        self.with_s(self.s.push(self.s.peek(1)))
    }

    /// ( x -- )
    pub open spec fn p_drop(self) -> VmView {
        self.with_s(self.s.drop_n(1))
    }

    /// ( x1 x2 -- x2 x1 )
    pub open spec fn swap(self) -> VmView {
        self.with_s(self.s.poke(1, self.s.peek(2)).poke(2, self.s.peek(1)))
    }

    /// ( x1 x2 -- x1 x2 x1 )
    pub open spec fn over(self) -> VmView {
        self.with_s(self.s.push(self.s.peek(2)))
    }

    /// ( x1 x2 -- x2 )
    pub open spec fn nip(self) -> VmView {
        self.with_s(self.s.drop_n(1).poke(1, self.s.peek(1)))
    }

    /// ( x1 x2 x3 -- x2 x3 x1 )
    pub open spec fn rot(self) -> VmView {
        self.with_s(self.s.poke(1, self.s.peek(3)).poke(2, self.s.peek(1)).poke(3, self.s.peek(2)))
    }

    /// ( x1 x2 x3 -- x3 x1 x2 )
    pub open spec fn minus_rot(self) -> VmView {
        self.with_s(self.s.poke(2, self.s.peek(3)).poke(3, self.s.peek(1)).poke(1, self.s.peek(2)))
    }

    /// ( x1 x2 -- )
    pub open spec fn two_drop(self) -> VmView {
        self.with_s(self.s.drop_n(2))
    }

    /// ( x1 x2 -- x1 x2 x1 x2 )
    pub open spec fn two_dup(self) -> VmView {
        self.with_s(self.s.push(self.s.peek(2)).push(self.s.peek(1)))
    }

    /// ( x1 x2 x3 x4 -- x3 x4 x1 x2 )
    pub open spec fn two_swap(self) -> VmView {
        self.with_s(self.s.poke(1, self.s.peek(3)).poke(2, self.s.peek(4)).poke(3, self.s.peek(1)).poke(4, self.s.peek(2)))
    }

    /// ( x1 x2 x3 x4 -- x1 x2 x3 x4 x1 x2 )
    pub open spec fn two_over(self) -> VmView {
        self.with_s(self.s.push(self.s.peek(4)).push(self.s.peek(3)))
    }

    /// ( -- n ) The depth of the data stack.
    pub open spec fn depth(self) -> VmView {
        self.with_s(self.s.push(self.s.len as isize))
    }

    /// ( n -- n+1 ), wrapping.
    pub open spec fn one_plus(self) -> VmView {
        self.with_s(self.s.poke(1, self.s.peek(1).wrapping_add(1)))
    }

    /// ( n -- n-1 ), wrapping.
    pub open spec fn one_minus(self) -> VmView {
        self.with_s(self.s.poke(1, self.s.peek(1).wrapping_sub(1)))
    }

    /// ( n1 n2 -- n1+n2 ), wrapping.
    pub open spec fn plus(self) -> VmView {
        self.with_s(self.s.poke(2, self.s.peek(2).wrapping_add(self.s.peek(1))).drop_n(1))
    }

    /// ( n1 n2 -- n1-n2 ), wrapping.
    pub open spec fn minus(self) -> VmView {
        self.with_s(self.s.poke(2, self.s.peek(2).wrapping_sub(self.s.peek(1))).drop_n(1))
    }

    /// ( n1 n2 -- n1*n2 ), wrapping.
    pub open spec fn star(self) -> VmView {
        self.with_s(self.s.poke(2, self.s.peek(2).wrapping_mul(self.s.peek(1))).drop_n(1))
    }

    /// ( c-addr1 -- c-addr2 ) Add the size of a character, wrapping.
    pub open spec fn char_plus(self) -> VmView {
        self.with_s(self.s.drop_n(1).push(self.s.peek(1).wrapping_add(1)))
    }

    /// ( n1 -- n2 ) The size of `n1` characters.
    pub open spec fn chars(self) -> VmView {
        self.with_s(self.s.drop_n(1).push(self.s.peek(1)))
    }

    /// ( a-addr1 -- a-addr2 ) Add the size of a cell (4), wrapping.
    pub open spec fn cell_plus(self) -> VmView {
        self.with_s(self.s.drop_n(1).push(self.s.peek(1).wrapping_add(4)))
    }

    /// ( n1 -- n2 ) The size of `n1` cells (4 bytes each), wrapping.
    pub open spec fn cells(self) -> VmView {
        self.with_s(self.s.drop_n(1).push(self.s.peek(1).wrapping_mul(4)))
    }

    /// ( n -- flag ) True if `n` is negative.
    pub open spec fn zero_less(self) -> VmView {
        self.with_s(self.s.drop_n(1).push(VmView::flag(self.s.peek(1) < 0)))
    }

    /// ( x -- flag ) True if `x` is zero.
    pub open spec fn zero_equals(self) -> VmView {
        self.with_s(self.s.drop_n(1).push(VmView::flag(self.s.peek(1) == 0)))
    }

    /// ( n -- flag ) True if `n` is positive.
    pub open spec fn zero_greater(self) -> VmView {
        self.with_s(self.s.drop_n(1).push(VmView::flag(self.s.peek(1) > 0)))
    }

    /// ( x -- flag ) True if `x` is not zero.
    pub open spec fn zero_not_equals(self) -> VmView {
        self.with_s(self.s.drop_n(1).push(VmView::flag(self.s.peek(1) != 0)))
    }

    /// ( x1 x2 -- flag ) True if `x1` equals `x2`.
    pub open spec fn equals(self) -> VmView {
        self.with_s(self.s.drop_n(2).push(VmView::flag(self.s.peek(1) == self.s.peek(2))))
    }

    /// ( n1 n2 -- flag ) True if `n1` is less than `n2`.
    pub open spec fn less_than(self) -> VmView {
        self.with_s(self.s.drop_n(2).push(VmView::flag(self.s.peek(2) < self.s.peek(1))))
    }

    /// ( n1 n2 -- flag ) True if `n1` is greater than `n2`.
    pub open spec fn greater_than(self) -> VmView {
        self.with_s(self.s.drop_n(2).push(VmView::flag(self.s.peek(2) > self.s.peek(1))))
    }

    /// ( x1 x2 -- flag ) True if `x1` differs from `x2`.
    pub open spec fn not_equals(self) -> VmView {
        self.with_s(self.s.drop_n(2).push(VmView::flag(self.s.peek(2) != self.s.peek(1))))
    }

    /// ( n1 n2 n3 -- flag ) True if `n2 <= n1 < n3`.
    pub open spec fn within(self) -> VmView {
        self.with_s(self.s.drop_n(3).push(VmView::flag(self.s.peek(2) <= self.s.peek(3) && self.s.peek(3) < self.s.peek(1))))
    }

    /// ( x -- !x ) Invert every bit.
    pub open spec fn invert(self) -> VmView {
        self.with_s(self.s.drop_n(1).push(!self.s.peek(1)))
    }

    /// ( x1 x2 -- x1&x2 )
    pub open spec fn and(self) -> VmView {
        self.with_s(self.s.drop_n(2).push(self.s.peek(1) & self.s.peek(2)))
    }

    /// ( x1 x2 -- x1|x2 )
    pub open spec fn or(self) -> VmView {
        self.with_s(self.s.drop_n(2).push(self.s.peek(1) | self.s.peek(2)))
    }

    /// ( x1 x2 -- x1^x2 )
    pub open spec fn xor(self) -> VmView {
        self.with_s(self.s.drop_n(2).push(self.s.peek(1) ^ self.s.peek(2)))
    }

    /// ( x1 u -- x2 ) Shift `x1` left by `u` bits (modulo the cell width).
    pub open spec fn lshift(self) -> VmView {
        self.with_s(self.s.drop_n(2).push(self.s.peek(2).wrapping_shl(self.s.peek(1) as u32)))
    }

    /// ( x1 u -- x2 ) Logical shift of `x1` right by `u` bits (modulo the cell width).
    pub open spec fn rshift(self) -> VmView {
        self.with_s(self.s.drop_n(2).push(((self.s.peek(2) as usize).wrapping_shr(self.s.peek(1) as u32)) as isize))
    }

    /// ( -- n ) The largest signed number.
    pub open spec fn max_n(self) -> VmView {
        self.with_s(self.s.push(isize::MAX))
    }

    /// ( -- u ) The largest unsigned number, as a cell.
    pub open spec fn max_u(self) -> VmView {
        self.with_s(self.s.push(usize::MAX as isize))
    }

    /// ( x -- ) ( R: -- x )
    pub open spec fn p_to_r(self) -> VmView {
        VmView { r: self.r.push(self.s.peek(1)), s: self.s.drop_n(1), ..self }
    }

    /// ( -- x ) ( R: x -- )
    pub open spec fn r_from(self) -> VmView {
        VmView { s: self.s.push(self.r.peek(1)), r: self.r.drop_n(1), ..self }
    }

    /// ( -- x ) ( R: x -- x )
    pub open spec fn r_fetch(self) -> VmView {
        self.with_s(self.s.push(self.r.peek(1)))
    }

    /// ( x1 x2 -- ) ( R: -- x1 x2 )
    pub open spec fn two_to_r(self) -> VmView {
        VmView { r: self.r.push(self.s.peek(2)).push(self.s.peek(1)), s: self.s.drop_n(2), ..self }
    }

    /// ( -- x1 x2 ) ( R: x1 x2 -- )
    pub open spec fn two_r_from(self) -> VmView {
        VmView { s: self.s.push(self.r.peek(2)).push(self.r.peek(1)), r: self.r.drop_n(2), ..self }
    }

    /// ( -- x1 x2 ) ( R: x1 x2 -- x1 x2 )
    pub open spec fn two_r_fetch(self) -> VmView {
        self.with_s(self.s.push(self.r.peek(2)).push(self.r.peek(1)))
    }

    /// ( -- n ) ( R: loop-sys -- loop-sys ) The index of the innermost loop.
    pub open spec fn p_i(self) -> VmView {
        self.with_s(self.s.push(self.r.peek(1)))
    }

    /// ( -- ) ( R: loop-sys -- ) Discard the loop-control parameters.
    pub open spec fn unloop(self) -> VmView {
        VmView { r: self.r.drop_n(3), ..self }
    }

    /// Enter interpretation state.
    pub open spec fn left_bracket(self) -> VmView {
        VmView { state: State { is_compiling: false, ..self.state }, ..self }
    }

    /// Enter compilation state.
    pub open spec fn right_bracket(self) -> VmView {
        VmView { state: State { is_compiling: true, ..self.state }, ..self }
    }

    /// ( -- flag ) True while compiling.
    pub open spec fn p_compiling(self) -> VmView {
        self.with_s(self.s.push(VmView::flag(self.state.is_compiling)))
    }

    /// ( -- flag ) True if an error is pending.
    pub open spec fn p_error_q(self) -> VmView {
        self.with_s(self.s.push(VmView::flag(self.error is Some)))
    }

    /// ( xt -- ) Set the word that runs after an abort.
    pub open spec fn handler_store(self) -> VmView {
        VmView { handler: self.s.peek(1) as usize, s: self.s.drop_n(1), ..self }
    }

    /// ( -- flag ) True if the last token is empty.
    pub open spec fn p_token_empty(self) -> VmView {
        self.with_s(self.s.push(VmView::flag(self.token.len() == 0)))
    }

    /// Clear the data stack.
    pub open spec fn clear_stacks(self) -> VmView {
        self.with_s(self.s.reset())
    }

    /// ( -- a-addr ) The address of `BASE`.
    pub open spec fn base(self) -> VmView {
        self.with_s(self.s.push(8))
    }

    /// ( -- addr ) The data-space pointer.
    pub open spec fn here(self) -> VmView {
        self.with_s(self.s.push(self.here as isize))
    }
}

impl VM {
    /// ( -- ) No operation.
    pub fn noop(&mut self)
        requires
            old(self).wf(),
        ensures
            final(self).wf(),
            final(self)@ == old(self)@.noop(),
    {
        
    }

    /// ( -- true ) Return a true flag.
    pub fn p_true(&mut self)
        requires
            old(self).wf(),
        ensures
            final(self).wf(),
            final(self)@ == old(self)@.p_true(),
    {
        self.s_stk.push(TRUE);
    }

    /// ( -- false ) Return a false flag.
    pub fn p_false(&mut self)
        requires
            old(self).wf(),
        ensures
            final(self).wf(),
            final(self)@ == old(self)@.p_false(),
    {
        self.s_stk.push(FALSE);
    }

    /// ( x -- x x )
    pub fn dup(&mut self)
        requires
            old(self).wf(),
        ensures
            final(self).wf(),
            final(self)@ == old(self)@.dup(),
    {
        let t = self.s_stk.peek(1);
        self.s_stk.push(t);
    }

    /// ( x -- )
    pub fn p_drop(&mut self)
        requires
            old(self).wf(),
        ensures
            final(self).wf(),
            final(self)@ == old(self)@.p_drop(),
    {
        self.s_stk.drop_n(1);
    }

    /// ( x1 x2 -- x2 x1 )
    pub fn swap(&mut self)
        requires
            old(self).wf(),
        ensures
            final(self).wf(),
            final(self)@ == old(self)@.swap(),
    {
        let t = self.s_stk.peek(1);
        let n = self.s_stk.peek(2);
        self.s_stk.poke(1, n);
        self.s_stk.poke(2, t);
    }

    /// ( x1 x2 -- x1 x2 x1 )
    pub fn over(&mut self)
        requires
            old(self).wf(),
        ensures
            final(self).wf(),
            final(self)@ == old(self)@.over(),
    {
        let n = self.s_stk.peek(2);
        self.s_stk.push(n);
    }

    /// ( x1 x2 -- x2 )
    pub fn nip(&mut self)
        requires
            old(self).wf(),
        ensures
            final(self).wf(),
            final(self)@ == old(self)@.nip(),
    {
        let t = self.s_stk.peek(1);
        self.s_stk.drop_n(1);
        self.s_stk.poke(1, t);
    }

    /// ( x1 x2 x3 -- x2 x3 x1 )
    pub fn rot(&mut self)
        requires
            old(self).wf(),
        ensures
            final(self).wf(),
            final(self)@ == old(self)@.rot(),
    {
        let t = self.s_stk.peek(1);
        let n = self.s_stk.peek(2);
        let x = self.s_stk.peek(3);
        self.s_stk.poke(1, x);
        self.s_stk.poke(2, t);
        self.s_stk.poke(3, n);
    }

    /// ( x1 x2 x3 -- x3 x1 x2 )
    pub fn minus_rot(&mut self)
        requires
            old(self).wf(),
        ensures
            final(self).wf(),
            final(self)@ == old(self)@.minus_rot(),
    {
        let t = self.s_stk.peek(1);
        let n = self.s_stk.peek(2);
        let x = self.s_stk.peek(3);
        self.s_stk.poke(2, x);
        self.s_stk.poke(3, t);
        self.s_stk.poke(1, n);
    }

    /// ( x1 x2 -- )
    pub fn two_drop(&mut self)
        requires
            old(self).wf(),
        ensures
            final(self).wf(),
            final(self)@ == old(self)@.two_drop(),
    {
        self.s_stk.drop_n(2);
    }

    /// ( x1 x2 -- x1 x2 x1 x2 )
    pub fn two_dup(&mut self)
        requires
            old(self).wf(),
        ensures
            final(self).wf(),
            final(self)@ == old(self)@.two_dup(),
    {
        let t = self.s_stk.peek(1);
        let n = self.s_stk.peek(2);
        self.s_stk.push(n);
        self.s_stk.push(t);
    }

    /// ( x1 x2 x3 x4 -- x3 x4 x1 x2 )
    pub fn two_swap(&mut self)
        requires
            old(self).wf(),
        ensures
            final(self).wf(),
            final(self)@ == old(self)@.two_swap(),
    {
        let t = self.s_stk.peek(1);
        let n = self.s_stk.peek(2);
        let x3 = self.s_stk.peek(3);
        let x4 = self.s_stk.peek(4);
        self.s_stk.poke(1, x3);
        self.s_stk.poke(2, x4);
        self.s_stk.poke(3, t);
        self.s_stk.poke(4, n);
    }

    /// ( x1 x2 x3 x4 -- x1 x2 x3 x4 x1 x2 )
    pub fn two_over(&mut self)
        requires
            old(self).wf(),
        ensures
            final(self).wf(),
            final(self)@ == old(self)@.two_over(),
    {
        let x3 = self.s_stk.peek(3);
        let x4 = self.s_stk.peek(4);
        self.s_stk.push(x4);
        self.s_stk.push(x3);
    }

    /// ( -- n ) The depth of the data stack.
    pub fn depth(&mut self)
        requires
            old(self).wf(),
        ensures
            final(self).wf(),
            final(self)@ == old(self)@.depth(),
    {
        let len = self.s_stk.len;
        self.s_stk.push(len as isize);
    }

    /// ( n -- n+1 ), wrapping.
    pub fn one_plus(&mut self)
        requires
            old(self).wf(),
        ensures
            final(self).wf(),
            final(self)@ == old(self)@.one_plus(),
    {
        let t = self.s_stk.peek(1);
        self.s_stk.poke(1, t.wrapping_add(1));
    }

    /// ( n -- n-1 ), wrapping.
    pub fn one_minus(&mut self)
        requires
            old(self).wf(),
        ensures
            final(self).wf(),
            final(self)@ == old(self)@.one_minus(),
    {
        let t = self.s_stk.peek(1);
        self.s_stk.poke(1, t.wrapping_sub(1));
    }

    /// ( n1 n2 -- n1+n2 ), wrapping.
    pub fn plus(&mut self)
        requires
            old(self).wf(),
        ensures
            final(self).wf(),
            final(self)@ == old(self)@.plus(),
    {
        let t = self.s_stk.peek(1);
        let n = self.s_stk.peek(2);
        self.s_stk.poke(2, n.wrapping_add(t));
        self.s_stk.drop_n(1);
    }

    /// ( n1 n2 -- n1-n2 ), wrapping.
    pub fn minus(&mut self)
        requires
            old(self).wf(),
        ensures
            final(self).wf(),
            final(self)@ == old(self)@.minus(),
    {
        let t = self.s_stk.peek(1);
        let n = self.s_stk.peek(2);
        self.s_stk.poke(2, n.wrapping_sub(t));
        self.s_stk.drop_n(1);
    }

    /// ( n1 n2 -- n1*n2 ), wrapping.
    pub fn star(&mut self)
        requires
            old(self).wf(),
        ensures
            final(self).wf(),
            final(self)@ == old(self)@.star(),
    {
        let t = self.s_stk.peek(1);
        let n = self.s_stk.peek(2);
        self.s_stk.poke(2, n.wrapping_mul(t));
        self.s_stk.drop_n(1);
    }

    /// ( c-addr1 -- c-addr2 ) Add the size of a character, wrapping.
    pub fn char_plus(&mut self)
        requires
            old(self).wf(),
        ensures
            final(self).wf(),
            final(self)@ == old(self)@.char_plus(),
    {
        let v = self.s_stk.pop();
        self.s_stk.push(v.wrapping_add(1));
    }

    /// ( n1 -- n2 ) The size of `n1` characters.
    pub fn chars(&mut self)
        requires
            old(self).wf(),
        ensures
            final(self).wf(),
            final(self)@ == old(self)@.chars(),
    {
        let v = self.s_stk.pop();
        self.s_stk.push(v);
    }

    /// ( a-addr1 -- a-addr2 ) Add the size of a cell (4), wrapping.
    pub fn cell_plus(&mut self)
        requires
            old(self).wf(),
        ensures
            final(self).wf(),
            final(self)@ == old(self)@.cell_plus(),
    {
        let v = self.s_stk.pop();
        self.s_stk.push(v.wrapping_add(4));
    }

    /// ( n1 -- n2 ) The size of `n1` cells (4 bytes each), wrapping.
    pub fn cells(&mut self)
        requires
            old(self).wf(),
        ensures
            final(self).wf(),
            final(self)@ == old(self)@.cells(),
    {
        let v = self.s_stk.pop();
        self.s_stk.push(v.wrapping_mul(4));
    }

    /// ( n -- flag ) True if `n` is negative.
    pub fn zero_less(&mut self)
        requires
            old(self).wf(),
        ensures
            final(self).wf(),
            final(self)@ == old(self)@.zero_less(),
    {
        let t = self.s_stk.pop();
        self.s_stk.push(if t < 0 { TRUE } else { FALSE });
    }

    /// ( x -- flag ) True if `x` is zero.
    pub fn zero_equals(&mut self)
        requires
            old(self).wf(),
        ensures
            final(self).wf(),
            final(self)@ == old(self)@.zero_equals(),
    {
        let t = self.s_stk.pop();
        self.s_stk.push(if t == 0 { TRUE } else { FALSE });
    }

    /// ( n -- flag ) True if `n` is positive.
    pub fn zero_greater(&mut self)
        requires
            old(self).wf(),
        ensures
            final(self).wf(),
            final(self)@ == old(self)@.zero_greater(),
    {
        let t = self.s_stk.pop();
        self.s_stk.push(if t > 0 { TRUE } else { FALSE });
    }

    /// ( x -- flag ) True if `x` is not zero.
    pub fn zero_not_equals(&mut self)
        requires
            old(self).wf(),
        ensures
            final(self).wf(),
            final(self)@ == old(self)@.zero_not_equals(),
    {
        let t = self.s_stk.pop();
        self.s_stk.push(if t == 0 { FALSE } else { TRUE });
    }

    /// ( x1 x2 -- flag ) True if `x1` equals `x2`.
    pub fn equals(&mut self)
        requires
            old(self).wf(),
        ensures
            final(self).wf(),
            final(self)@ == old(self)@.equals(),
    {
        let (n, t) = self.s_stk.pop2();
        self.s_stk.push(if t == n { TRUE } else { FALSE });
    }

    /// ( n1 n2 -- flag ) True if `n1` is less than `n2`.
    pub fn less_than(&mut self)
        requires
            old(self).wf(),
        ensures
            final(self).wf(),
            final(self)@ == old(self)@.less_than(),
    {
        let (n, t) = self.s_stk.pop2();
        self.s_stk.push(if n < t { TRUE } else { FALSE });
    }

    /// ( n1 n2 -- flag ) True if `n1` is greater than `n2`.
    pub fn greater_than(&mut self)
        requires
            old(self).wf(),
        ensures
            final(self).wf(),
            final(self)@ == old(self)@.greater_than(),
    {
        let (n, t) = self.s_stk.pop2();
        self.s_stk.push(if n > t { TRUE } else { FALSE });
    }

    /// ( x1 x2 -- flag ) True if `x1` differs from `x2`.
    pub fn not_equals(&mut self)
        requires
            old(self).wf(),
        ensures
            final(self).wf(),
            final(self)@ == old(self)@.not_equals(),
    {
        let (n, t) = self.s_stk.pop2();
        self.s_stk.push(if n == t { FALSE } else { TRUE });
    }

    /// ( n1 n2 n3 -- flag ) True if `n2 <= n1 < n3`.
    pub fn within(&mut self)
        requires
            old(self).wf(),
        ensures
            final(self).wf(),
            final(self)@ == old(self)@.within(),
    {
        let (x1, x2, x3) = self.s_stk.pop3();
        self.s_stk.push(if x2 <= x1 && x1 < x3 { TRUE } else { FALSE });
    }

    /// ( x -- !x ) Invert every bit.
    pub fn invert(&mut self)
        requires
            old(self).wf(),
        ensures
            final(self).wf(),
            final(self)@ == old(self)@.invert(),
    {
        let t = self.s_stk.pop();
        self.s_stk.push(!t);
    }

    /// ( x1 x2 -- x1&x2 )
    pub fn and(&mut self)
        requires
            old(self).wf(),
        ensures
            final(self).wf(),
            final(self)@ == old(self)@.and(),
    {
        let (n, t) = self.s_stk.pop2();
        self.s_stk.push(t & n);
    }

    /// ( x1 x2 -- x1|x2 )
    pub fn or(&mut self)
        requires
            old(self).wf(),
        ensures
            final(self).wf(),
            final(self)@ == old(self)@.or(),
    {
        let (n, t) = self.s_stk.pop2();
        self.s_stk.push(t | n);
    }

    /// ( x1 x2 -- x1^x2 )
    pub fn xor(&mut self)
        requires
            old(self).wf(),
        ensures
            final(self).wf(),
            final(self)@ == old(self)@.xor(),
    {
        let (n, t) = self.s_stk.pop2();
        self.s_stk.push(t ^ n);
    }

    /// ( x1 u -- x2 ) Shift `x1` left by `u` bits (modulo the cell width).
    pub fn lshift(&mut self)
        requires
            old(self).wf(),
        ensures
            final(self).wf(),
            final(self)@ == old(self)@.lshift(),
    {
        let (n, t) = self.s_stk.pop2();
        self.s_stk.push(n.wrapping_shl(t as u32));
    }

    /// ( x1 u -- x2 ) Logical shift of `x1` right by `u` bits (modulo the cell width).
    pub fn rshift(&mut self)
        requires
            old(self).wf(),
        ensures
            final(self).wf(),
            final(self)@ == old(self)@.rshift(),
    {
        let (n, t) = self.s_stk.pop2();
        self.s_stk.push(((n as usize).wrapping_shr(t as u32)) as isize);
    }

    /// ( -- n ) The largest signed number.
    pub fn max_n(&mut self)
        requires
            old(self).wf(),
        ensures
            final(self).wf(),
            final(self)@ == old(self)@.max_n(),
    {
        self.s_stk.push(isize::MAX);
    }

    /// ( -- u ) The largest unsigned number, as a cell.
    pub fn max_u(&mut self)
        requires
            old(self).wf(),
        ensures
            final(self).wf(),
            final(self)@ == old(self)@.max_u(),
    {
        self.s_stk.push(usize::MAX as isize);
    }

    /// ( x -- ) ( R: -- x )
    pub fn p_to_r(&mut self)
        requires
            old(self).wf(),
        ensures
            final(self).wf(),
            final(self)@ == old(self)@.p_to_r(),
    {
        let t = self.s_stk.peek(1);
        self.r_stk.push(t);
        self.s_stk.drop_n(1);
    }

    /// ( -- x ) ( R: x -- )
    pub fn r_from(&mut self)
        requires
            old(self).wf(),
        ensures
            final(self).wf(),
            final(self)@ == old(self)@.r_from(),
    {
        let t = self.r_stk.peek(1);
        self.s_stk.push(t);
        self.r_stk.drop_n(1);
    }

    /// ( -- x ) ( R: x -- x )
    pub fn r_fetch(&mut self)
        requires
            old(self).wf(),
        ensures
            final(self).wf(),
            final(self)@ == old(self)@.r_fetch(),
    {
        let t = self.r_stk.peek(1);
        self.s_stk.push(t);
    }

    /// ( x1 x2 -- ) ( R: -- x1 x2 )
    pub fn two_to_r(&mut self)
        requires
            old(self).wf(),
        ensures
            final(self).wf(),
            final(self)@ == old(self)@.two_to_r(),
    {
        let t = self.s_stk.peek(1);
        let n = self.s_stk.peek(2);
        self.r_stk.push(n);
        self.r_stk.push(t);
        self.s_stk.drop_n(2);
    }

    /// ( -- x1 x2 ) ( R: x1 x2 -- )
    pub fn two_r_from(&mut self)
        requires
            old(self).wf(),
        ensures
            final(self).wf(),
            final(self)@ == old(self)@.two_r_from(),
    {
        let t = self.r_stk.peek(1);
        let n = self.r_stk.peek(2);
        self.s_stk.push(n);
        self.s_stk.push(t);
        self.r_stk.drop_n(2);
    }

    /// ( -- x1 x2 ) ( R: x1 x2 -- x1 x2 )
    pub fn two_r_fetch(&mut self)
        requires
            old(self).wf(),
        ensures
            final(self).wf(),
            final(self)@ == old(self)@.two_r_fetch(),
    {
        let t = self.r_stk.peek(1);
        let n = self.r_stk.peek(2);
        self.s_stk.push(n);
        self.s_stk.push(t);
    }

    /// ( -- n ) ( R: loop-sys -- loop-sys ) The index of the innermost loop.
    pub fn p_i(&mut self)
        requires
            old(self).wf(),
        ensures
            final(self).wf(),
            final(self)@ == old(self)@.p_i(),
    {
        let i = self.r_stk.peek(1);
        self.s_stk.push(i);
    }

    /// ( -- ) ( R: loop-sys -- ) Discard the loop-control parameters.
    pub fn unloop(&mut self)
        requires
            old(self).wf(),
        ensures
            final(self).wf(),
            final(self)@ == old(self)@.unloop(),
    {
        self.r_stk.drop_n(3);
    }

    /// Enter interpretation state.
    pub fn left_bracket(&mut self)
        requires
            old(self).wf(),
        ensures
            final(self).wf(),
            final(self)@ == old(self)@.left_bracket(),
    {
        self.state.is_compiling = false;
    }

    /// Enter compilation state.
    pub fn right_bracket(&mut self)
        requires
            old(self).wf(),
        ensures
            final(self).wf(),
            final(self)@ == old(self)@.right_bracket(),
    {
        self.state.is_compiling = true;
    }

    /// ( -- flag ) True while compiling.
    pub fn p_compiling(&mut self)
        requires
            old(self).wf(),
        ensures
            final(self).wf(),
            final(self)@ == old(self)@.p_compiling(),
    {
        let value = if self.state.is_compiling { TRUE } else { FALSE };
        self.s_stk.push(value);
    }

    /// ( -- flag ) True if an error is pending.
    pub fn p_error_q(&mut self)
        requires
            old(self).wf(),
        ensures
            final(self).wf(),
            final(self)@ == old(self)@.p_error_q(),
    {
        let value = if self.last_error.is_some() { TRUE } else { FALSE };
        self.s_stk.push(value);
    }

    /// ( xt -- ) Set the word that runs after an abort.
    pub fn handler_store(&mut self)
        requires
            old(self).wf(),
        ensures
            final(self).wf(),
            final(self)@ == old(self)@.handler_store(),
    {
        let t = self.s_stk.pop();
        self.handler = t as usize;
    }

    /// ( -- flag ) True if the last token is empty.
    pub fn p_token_empty(&mut self)
        requires
            old(self).wf(),
        ensures
            final(self).wf(),
            final(self)@ == old(self)@.p_token_empty(),
    {
        let value = if self.tkn.len() == 0 { TRUE } else { FALSE };
        self.s_stk.push(value);
    }

    /// Clear the data stack.
    pub fn clear_stacks(&mut self)
        requires
            old(self).wf(),
        ensures
            final(self).wf(),
            final(self)@ == old(self)@.clear_stacks(),
    {
        self.s_stk.reset();
    }

    /// ( -- a-addr ) The address of `BASE`.
    pub fn base(&mut self)
        requires
            old(self).wf(),
        ensures
            final(self).wf(),
            final(self)@ == old(self)@.base(),
    {
        let base_addr = self.data_space.system_variables().base_addr();
        self.s_stk.push(base_addr as isize);
    }

    /// ( -- addr ) The data-space pointer.
    pub fn here(&mut self)
        requires
            old(self).wf(),
        ensures
            final(self).wf(),
            final(self)@ == old(self)@.here(),
    {
        let len = self.data_space.here() as isize;
        self.s_stk.push(len);
    }
}

} // verus!
