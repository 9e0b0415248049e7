//! A call-threaded inner interpreter over a downward-growing data stack.
//!
//! The stack is an array of 256 cells; `top` indexes the top cell and
//! decreases (wrapping) on a push. A compiled program is a sequence of
//! execution tokens, run one after the other.

use vstd::prelude::*;

verus! {

/// An execution token: the primitive to run.
#[derive(Clone, Copy, Debug, PartialEq, Eq, Structural)]
pub enum Xt {
    PFalse,
    One,
    OnePlus,
    TwoStar,
    Dup,
    Drop,
    Swap,
}

/// The effect of one primitive on the stack cells and the top index; `None`
/// where the arithmetic of the primitive overflows.
pub open spec fn step(xt: Xt, s: Seq<isize>, top: u8) -> Option<(Seq<isize>, u8)> {
    let below = top.wrapping_sub(1);
    let next = top.wrapping_add(1);
    match xt {
        Xt::PFalse => Some((s.update(below as int, 0), below)),
        Xt::One => Some((s.update(below as int, 1), below)),
        Xt::OnePlus => if s[top as int] < isize::MAX {
            Some((s.update(top as int, (s[top as int] + 1) as isize), top))
        } else {
            None
        },
        Xt::TwoStar => if isize::MIN <= 2 * s[top as int] <= isize::MAX {
            Some((s.update(top as int, (2 * s[top as int]) as isize), top))
        } else {
            None
        },
        Xt::Dup => Some((s.update(below as int, s[top as int]), below)),
        Xt::Drop => Some((s, next)),
        Xt::Swap => Some((s.update(next as int, s[top as int]).update(top as int, s[next as int]), top)),
    }
}

/// The effect of running the tokens `xts` in order; `None` where one of them
/// overflows.
pub open spec fn run_spec(xts: Seq<Xt>, s: Seq<isize>, top: u8) -> Option<(Seq<isize>, u8)>
    decreases xts.len(),
{
    if xts.len() == 0 {
        Some((s, top))
    } else {
        match run_spec(xts.drop_last(), s, top) {
            Some((s1, t1)) => step(xts.last(), s1, t1),
            None => None,
        }
    }
}

/// ( -- 0 )
pub fn p_false(stack: &mut [isize; 256], top: &mut u8, _data: &[Xt])
    ensures
        step(Xt::PFalse, old(stack)@, *old(top)) == Some((final(stack)@, *final(top))),
{
    let new_top = top.wrapping_sub(1);
    stack[new_top as usize] = 0;
    *top = new_top;
}

/// ( -- 1 )
pub fn one(stack: &mut [isize; 256], top: &mut u8, _data: &[Xt])
    ensures
        step(Xt::One, old(stack)@, *old(top)) == Some((final(stack)@, *final(top))),
{
    let new_top = top.wrapping_sub(1);
    stack[new_top as usize] = 1;
    *top = new_top;
}

/// ( n -- n+1 )
pub fn one_plus(stack: &mut [isize; 256], top: &mut u8, _data: &[Xt])
    requires
        step(Xt::OnePlus, old(stack)@, *old(top)) is Some,
    ensures
        step(Xt::OnePlus, old(stack)@, *old(top)) == Some((final(stack)@, *final(top))),
{
    let t = *top as usize;
    stack[t] = stack[t] + 1;
}

/// ( n -- 2*n )
pub fn two_star(stack: &mut [isize; 256], top: &mut u8, _data: &[Xt])
    requires
        step(Xt::TwoStar, old(stack)@, *old(top)) is Some,
    ensures
        step(Xt::TwoStar, old(stack)@, *old(top)) == Some((final(stack)@, *final(top))),
{
    let t = *top as usize;
    stack[t] = stack[t] * 2;
}

/// ( x -- x x )
pub fn dup(stack: &mut [isize; 256], top: &mut u8, _data: &[Xt])
    ensures
        step(Xt::Dup, old(stack)@, *old(top)) == Some((final(stack)@, *final(top))),
{
    let new_top = top.wrapping_sub(1);
    stack[new_top as usize] = stack[*top as usize];
    *top = new_top;
}

/// ( x -- )
pub fn drop(stack: &mut [isize; 256], top: &mut u8, _data: &[Xt])
    ensures
        step(Xt::Drop, old(stack)@, *old(top)) == Some((final(stack)@, *final(top))),
{
    let new_top = top.wrapping_add(1);
    *top = new_top;
}

/// ( x1 x2 -- x2 x1 )
pub fn swap(stack: &mut [isize; 256], top: &mut u8, _data: &[Xt])
    ensures
        step(Xt::Swap, old(stack)@, *old(top)) == Some((final(stack)@, *final(top))),
{
    let next = top.wrapping_add(1);
    let tmp = stack[next as usize];
    stack[next as usize] = stack[*top as usize];
    stack[*top as usize] = tmp;
}

/// Run the tokens of `data` in order.
pub fn run(stack: &mut [isize; 256], top: &mut u8, data: &[Xt])
    requires
        run_spec(data@, old(stack)@, *old(top)) is Some,
    ensures
        run_spec(data@, old(stack)@, *old(top)) == Some((final(stack)@, *final(top))),
{
    let mut i: usize = 0;
    while i < data.len()
        invariant
            i <= data@.len(),
            run_spec(data@, old(stack)@, *old(top)) is Some,
            run_spec(data@.take(i as int), old(stack)@, *old(top)) == Some((stack@, *top)),
        decreases data@.len() - i,
    {
        proof {
            lemma_run_prefix(data@, old(stack)@, *old(top), i as int + 1);
            assert(data@.take(i + 1).drop_last() =~= data@.take(i as int));
        }
        match data[i] {
            Xt::PFalse => p_false(stack, top, data),
            Xt::One => one(stack, top, data),
            Xt::OnePlus => one_plus(stack, top, data),
            Xt::TwoStar => two_star(stack, top, data),
            Xt::Dup => dup(stack, top, data),
            Xt::Drop => drop(stack, top, data),
            Xt::Swap => swap(stack, top, data),
        }
        i = i + 1;
    }
    assert(data@.take(data@.len() as int) =~= data@);
}

/// A program that runs without overflow also runs every prefix of itself
/// without overflow.
pub proof fn lemma_run_prefix(xts: Seq<Xt>, s: Seq<isize>, top: u8, n: int)
    requires
        0 <= n <= xts.len(),
        run_spec(xts, s, top) is Some,
    ensures
        run_spec(xts.take(n), s, top) is Some,
    decreases xts.len() - n,
{
    if n < xts.len() {
        lemma_run_prefix(xts, s, top, n + 1);
        assert(xts.take(n + 1).drop_last() =~= xts.take(n));
    } else {
        assert(xts.take(n) =~= xts);
    }
}

} // verus!
