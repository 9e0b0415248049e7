//! What a run of pushes and pops does to a stack: its depth, and what the
//! canaries tell of it afterwards.
//!
//! A run is a sequence of operations; `Some(v)` is `push(v)` and `None` is
//! `pop`, whose views are `StackView::push` and `StackView::drop_n(1)`.
//! `Stack::underflow` and `Stack::overflow` give `underflowed` and
//! `overflowed` of the view for every cell type whose `==` is equality,
//! such as the machine's `isize` cells.

use vstd::prelude::*;

use crate::kernel::StackView;
use crate::memory_words::{overflowed, underflowed};

verus! {

/// The stack after one operation: `Some(v)` pushes `v`, `None` pops.
pub open spec fn apply_op<T>(s: StackView<T>, op: Option<T>) -> StackView<T> {
    match op {
        Some(v) => s.push(v),
        None => s.drop_n(1),
    }
}

/// The stack after a run of operations, the first one first.
pub open spec fn apply_ops<T>(s: StackView<T>, ops: Seq<Option<T>>) -> StackView<T>
    decreases ops.len(),
{
    if ops.len() == 0 {
        s
    } else {
        apply_op(apply_ops(s, ops.drop_last()), ops.last())
    }
}

/// Pushes minus pops in a run.
pub open spec fn net_depth<T>(ops: Seq<Option<T>>) -> int
    decreases ops.len(),
{
    if ops.len() == 0 {
        0
    } else {
        net_depth(ops.drop_last()) + if ops.last() is Some {
            1int
        } else {
            -1int
        }
    }
}

/// Some push of the run was made when pops had outnumbered pushes by one.
pub open spec fn pushed_below_bottom<T>(ops: Seq<Option<T>>) -> bool {
    exists|k: int| 0 <= k < ops.len() && #[trigger] ops[k] is Some && net_depth(ops.take(k)) == -1
}

/// Every prefix of the run has a net depth between `lo` and `hi`.
pub open spec fn depths_within<T>(ops: Seq<Option<T>>, lo: int, hi: int) -> bool {
    forall|k: int| 0 <= k <= ops.len() ==> lo <= #[trigger] net_depth(ops.take(k)) <= hi
}

/// No value pushed in the run is the canary.
pub open spec fn pushes_differ_from<T>(ops: Seq<Option<T>>, canary: T) -> bool {
    forall|k: int| 0 <= k < ops.len() ==> (#[trigger] ops[k] matches Some(v) ==> v != canary)
}

/// The conditions of a run carry over to the run without its last
/// operation.
proof fn lemma_prefix<T>(ops: Seq<Option<T>>, lo: int, hi: int, canary: T)
    requires
        ops.len() > 0,
        depths_within(ops, lo, hi),
        pushes_differ_from(ops, canary),
    ensures
        depths_within(ops.drop_last(), lo, hi),
        pushes_differ_from(ops.drop_last(), canary),
        forall|k: int| 0 <= k <= ops.len() - 1 ==> #[trigger] ops.drop_last().take(k) == ops.take(k),
        ops.take(ops.len() - 1) == ops.drop_last(),
        ops.take(ops.len() as int) == ops,
{
    let p = ops.drop_last();
    assert forall|k: int| 0 <= k <= ops.len() - 1 implies #[trigger] p.take(k) == ops.take(k) by {
        assert(p.take(k) =~= ops.take(k));
    }
    assert(ops.take(ops.len() - 1) =~= p);
    assert(ops.take(ops.len() as int) =~= ops);
    assert forall|k: int| 0 <= k <= p.len() implies lo <= #[trigger] net_depth(p.take(k)) <= hi by {
        assert(p.take(k) == ops.take(k));
    }
    assert forall|k: int| 0 <= k < p.len() implies (#[trigger] p[k] matches Some(v) ==> v != canary) by {
        assert(p[k] == ops[k]);
    }
}

/// The depth after a run is the starting depth plus the net depth, modulo
/// 256, and the run keeps the 256 cells and the canary.
pub proof fn lemma_depth_after_run<T>(s: StackView<T>, ops: Seq<Option<T>>)
    requires
        s.cells.len() == 256,
    ensures
        apply_ops(s, ops).len as int == (s.len + net_depth(ops)) % 256,
        apply_ops(s, ops).cells.len() == 256,
        apply_ops(s, ops).canary == s.canary,
    decreases ops.len(),
{
    if ops.len() > 0 {
        lemma_depth_after_run(s, ops.drop_last());
    }
}

/// The shape of a stack that started empty after a run whose depth stays
/// between -127 and 32: the depth is the net depth, wrapped, and the
/// canary at the bottom cell is gone exactly when a push was made below
/// the bottom.
proof fn lemma_underflow_shape<T>(s: StackView<T>, ops: Seq<Option<T>>)
    requires
        s.cells.len() == 256,
        s.len == 0,
        s.cells[255] == s.canary,
        pushes_differ_from(ops, s.canary),
        depths_within(ops, -127, 32),
    ensures
        apply_ops(s, ops).len as int == if net_depth(ops) >= 0 {
            net_depth(ops)
        } else {
            256 + net_depth(ops)
        },
        apply_ops(s, ops).cells.len() == 256,
        apply_ops(s, ops).canary == s.canary,
        (apply_ops(s, ops).cells[255] != s.canary) == pushed_below_bottom(ops),
    decreases ops.len(),
{
    lemma_depth_after_run(s, ops);
    assert(ops.take(ops.len() as int) =~= ops);
    let d = net_depth(ops);
    assert(-127 <= net_depth(ops.take(ops.len() as int)) <= 32);
    if ops.len() == 0 {
        assert(!pushed_below_bottom(ops));
    } else {
        let p = ops.drop_last();
        lemma_prefix(ops, -127, 32, s.canary);
        lemma_underflow_shape(s, p);
        lemma_depth_after_run(s, p);
        let t = apply_ops(s, p);
        let dp = net_depth(p);
        assert(net_depth(ops.take(p.len() as int)) == dp);
        let n = p.len() as int;
        match ops.last() {
            Some(v) => {
                assert(ops[n] is Some);
                assert(v != s.canary);
                if dp == -1 {
                    assert(t.len == 255);
                    assert(pushed_below_bottom(ops));
                    assert(apply_ops(s, ops).cells[255] == v);
                } else {
                    assert(t.len != 255);
                    assert(apply_ops(s, ops).cells[255] == t.cells[255]);
                    if pushed_below_bottom(ops) {
                        let k = choose|k: int|
                            0 <= k < ops.len() && #[trigger] ops[k] is Some && net_depth(ops.take(k)) == -1;
                        assert(k < n);
                        assert(p[k] == ops[k]);
                        assert(p.take(k) == ops.take(k));
                        assert(pushed_below_bottom(p));
                    }
                    if pushed_below_bottom(p) {
                        let k = choose|k: int|
                            0 <= k < p.len() && #[trigger] p[k] is Some && net_depth(p.take(k)) == -1;
                        assert(p[k] == ops[k]);
                        assert(p.take(k) == ops.take(k));
                        assert(pushed_below_bottom(ops));
                    }
                }
            },
            None => {
                assert(apply_ops(s, ops).cells == t.cells);
                assert(!(ops[n] is Some));
                if pushed_below_bottom(ops) {
                    let k = choose|k: int|
                        0 <= k < ops.len() && #[trigger] ops[k] is Some && net_depth(ops.take(k)) == -1;
                    assert(k < n);
                    assert(p[k] == ops[k]);
                    assert(p.take(k) == ops.take(k));
                    assert(pushed_below_bottom(p));
                }
                if pushed_below_bottom(p) {
                    let k = choose|k: int|
                        0 <= k < p.len() && #[trigger] p[k] is Some && net_depth(p.take(k)) == -1;
                    assert(p[k] == ops[k]);
                    assert(p.take(k) == ops.take(k));
                    assert(pushed_below_bottom(ops));
                }
            },
        }
    }
}

/// A stack that starts empty with its bottom canary in place, run through
/// pushes of values other than the canary and pops, the depth staying
/// between -127 and 32: it shows an underflow when it ends below its
/// bottom, or when a push was ever made below its bottom; it shows none
/// when it never went below its bottom.
pub proof fn law_underflow_after_run<T>(s: StackView<T>, ops: Seq<Option<T>>)
    requires
        s.cells.len() == 256,
        s.len == 0,
        s.cells[255] == s.canary,
        pushes_differ_from(ops, s.canary),
        depths_within(ops, -127, 32),
    ensures
        net_depth(ops) < 0 ==> underflowed(apply_ops(s, ops)),
        pushed_below_bottom(ops) ==> underflowed(apply_ops(s, ops)),
        depths_within(ops, 0, 32) ==> !underflowed(apply_ops(s, ops)),
{
    lemma_underflow_shape(s, ops);
    assert(ops.take(ops.len() as int) =~= ops);
    assert(-127 <= net_depth(ops.take(ops.len() as int)) <= 32);
    if depths_within(ops, 0, 32) {
        if pushed_below_bottom(ops) {
            let k = choose|k: int|
                0 <= k < ops.len() && #[trigger] ops[k] is Some && net_depth(ops.take(k)) == -1;
            assert(0 <= net_depth(ops.take(k)));
        }
        assert(ops.take(ops.len() as int) =~= ops);
        assert(0 <= net_depth(ops.take(ops.len() as int)));
    }
}

/// Pushes alone, from an empty stack: the depth is the number of pushes,
/// the cells below it hold the values pushed, and the cells above it are
/// as they were.
proof fn lemma_pushes<T>(s: StackView<T>, ops: Seq<Option<T>>)
    requires
        s.cells.len() == 256,
        s.len == 0,
        ops.len() <= 255,
        forall|k: int| 0 <= k < ops.len() ==> #[trigger] ops[k] is Some,
    ensures
        apply_ops(s, ops).len == ops.len(),
        apply_ops(s, ops).cells.len() == 256,
        apply_ops(s, ops).canary == s.canary,
        forall|k: int| 0 <= k < ops.len() ==> Some(#[trigger] apply_ops(s, ops).cells[k]) == ops[k],
        forall|k: int| ops.len() <= k < 256 ==> #[trigger] apply_ops(s, ops).cells[k] == s.cells[k],
    decreases ops.len(),
{
    if ops.len() > 0 {
        let p = ops.drop_last();
        assert forall|k: int| 0 <= k < p.len() implies #[trigger] p[k] is Some by {
            assert(p[k] == ops[k]);
        }
        lemma_pushes(s, p);
        assert(ops[p.len() as int] is Some);
        let t = apply_ops(s, p);
        assert forall|k: int| 0 <= k < ops.len() implies Some(#[trigger] apply_ops(s, ops).cells[k]) == ops[k] by {
            if k < p.len() {
                assert(p[k] == ops[k]);
            }
        }
    }
}

/// A stack that starts empty with its upper canaries in place, after at
/// most 128 pushes of values other than the canary: it shows an overflow
/// exactly when more than 32 values were pushed, and never an underflow.
pub proof fn law_overflow_after_pushes<T>(s: StackView<T>, ops: Seq<Option<T>>)
    requires
        s.cells.len() == 256,
        s.len == 0,
        forall|i: int| 32 <= i < 256 ==> #[trigger] s.cells[i] == s.canary,
        ops.len() <= 128,
        forall|k: int| 0 <= k < ops.len() ==> #[trigger] ops[k] is Some,
        pushes_differ_from(ops, s.canary),
    ensures
        overflowed(apply_ops(s, ops)) == (ops.len() > 32),
        !underflowed(apply_ops(s, ops)),
{
    lemma_pushes(s, ops);
    let t = apply_ops(s, ops);
    if ops.len() > 32 {
        assert(Some(t.cells[32]) == ops[32]);
        assert(ops[32] matches Some(v) ==> v != s.canary);
    } else {
        assert(t.cells[32] == s.cells[32]);
    }
    assert(t.cells[255] == s.cells[255]);
}

/// A stack that starts empty, run through pushes and pops whose depth
/// stays between 0 and 255: its depth is the number of pushes minus the
/// number of pops, and so are the number of cells on it and its being
/// empty.
pub proof fn law_depth_after_run<T>(s: StackView<T>, ops: Seq<Option<T>>)
    requires
        s.cells.len() == 256,
        s.len == 0,
        depths_within(ops, 0, 255),
    ensures
        apply_ops(s, ops).len as int == net_depth(ops),
        apply_ops(s, ops).cells.take(apply_ops(s, ops).len as int).len() == net_depth(ops),
        (apply_ops(s, ops).len == 0) == (net_depth(ops) == 0),
{
    lemma_depth_after_run(s, ops);
    assert(ops.take(ops.len() as int) =~= ops);
    assert(0 <= net_depth(ops.take(ops.len() as int)) <= 255);
}

} // verus!
