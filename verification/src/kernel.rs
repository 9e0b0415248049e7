//! Stacks, control-flow markers and the interpreter state of the Forth core.

use vstd::prelude::*;
use vstd::slice::slice_subrange;
use vstd::std_specs::cmp::PartialEqSpec;

use crate::memory_words::{overflowed, underflowed};

verus! {

/// A stack of 256 cells addressed by a `u8` depth that wraps around.
///
/// Cells 32 to 255 are filled with a canary value on reset: a cell that no
/// longer holds the canary shows that the stack ran past its bounds
/// (`overflow` when pushing too far, `underflow` when popping below 0, which
/// wraps the depth to 255).
pub struct Stack<T: Default> {
    pub inner: [T; 256],
    pub len: u8,
    pub canary: T,
}

/// The abstract value of a stack: its 256 cells, depth and canary.
#[verifier::ext_equal]
pub struct StackView<T> {
    pub cells: Seq<T>,
    pub len: u8,
    pub canary: T,
}

impl<T> StackView<T> {
    /// `v` pushed: stored at the depth, which grows by one (wrapping).
    pub open spec fn push(self, v: T) -> StackView<T> {
        StackView { cells: self.cells.update(self.len as int, v), len: self.len.wrapping_add(1), ..self }
    }

    /// The depth shrunk by `k` (wrapping); the cells stay.
    pub open spec fn drop_n(self, k: u8) -> StackView<T> {
        StackView { len: self.len.wrapping_sub(k), ..self }
    }

    /// The cell `k` places below the depth (1 is the top).
    pub open spec fn peek(self, k: u8) -> T {
        self.cells[self.len.wrapping_sub(k) as int]
    }

    /// The cell `k` places below the depth set to `v`.
    pub open spec fn poke(self, k: u8, v: T) -> StackView<T> {
        StackView { cells: self.cells.update(self.len.wrapping_sub(k) as int, v), ..self }
    }

    /// Emptied, with cells 32 to 255 refilled with the canary.
    pub open spec fn reset(self) -> StackView<T> {
        StackView {
            cells: Seq::new(256, |i: int| if i < 32 { self.cells[i] } else { self.canary }),
            len: 0,
            ..self
        }
    }
}

impl<T: Default> View for Stack<T> {
    type V = StackView<T>;

    open spec fn view(&self) -> StackView<T> {
        StackView { cells: self.inner@, len: self.len, canary: self.canary }
    }
}

impl<T: Default> Stack<T> {
    /// The cells that are on the stack, bottom first.
    pub open spec fn contents(&self) -> Seq<T> {
        self.inner@.take(self.len as int)
    }

    /// The cells 32 to 255 hold the canary.
    pub open spec fn canaries_intact(&self) -> bool {
        forall|i: int| 32 <= i < 256 ==> #[trigger] self.inner@[i] == self.canary
    }
}

impl<T: Default + Copy + PartialEq> Stack<T> {
    /// An empty stack whose upper cells hold `canary` and whose lower cells
    /// hold the default value of `T`.
    pub fn new(canary: T) -> (r: Self)
        ensures
            r.len == 0,
            r.canary == canary,
            r.canaries_intact(),
            forall|i: int| 0 <= i < 32 ==> call_ensures(T::default, (), #[trigger] r.inner@[i]),
            r.contents() == Seq::<T>::empty(),
    {
        let d = T::default();
        let mut result = Stack { inner: [d;256], len: 0, canary: canary };
        assert(forall|i: int| 0 <= i < 256 ==> #[trigger] result.inner@[i] == d);
        result.reset();
        result
    }

    /// Empty the stack and refill cells 32 to 255 with the canary.
    pub fn reset(&mut self)
        ensures
            final(self).len == 0,
            final(self).canary == old(self).canary,
            final(self).canaries_intact(),
            forall|i: int| 0 <= i < 32 ==> #[trigger] final(self).inner@[i] == old(self).inner@[i],
            final(self)@ == old(self)@.reset(),
    {
        self.len = 0;
        let mut i: usize = 32;
        while i < 256
            invariant
                32 <= i <= 256,
                self.len == 0,
                self.canary == old(self).canary,
                forall|k: int| 32 <= k < i ==> #[trigger] self.inner@[k] == self.canary,
                forall|k: int| 0 <= k < 32 ==> #[trigger] self.inner@[k] == old(self).inner@[k],
            decreases 256 - i,
        {
            self.inner[i] = self.canary;
            i = i + 1;
        }
    }

    /// True if the stack was popped below its bottom.
    pub fn underflow(&self) -> (r: bool)
        ensures
            T::obeys_eq_spec() ==> r == (!self.inner@[255].eq_spec(&self.canary) || self.len
                > 128),
            T::obeys_eq_spec() && (forall|a: T, b: T| #[trigger] a.eq_spec(&b) == (a == b)) ==> r
                == underflowed(self@),
    {
        (self.inner[255] != self.canary) || (self.len > 128)
    }

    /// True if more than 32 cells were pushed.
    pub fn overflow(&self) -> (r: bool)
        ensures
            T::obeys_eq_spec() ==> r == (!self.inner@[32].eq_spec(&self.canary) || (self.len > 32
                && self.len <= 128)),
            T::obeys_eq_spec() && (forall|a: T, b: T| #[trigger] a.eq_spec(&b) == (a == b)) ==> r
                == overflowed(self@),
    {
        (self.inner[32] != self.canary) || (self.len > 32 && self.len <= 128)
    }

    /// Push `v`; the depth wraps from 255 to 0.
    pub fn push(&mut self, v: T)
        ensures
            final(self).len == old(self).len.wrapping_add(1),
            final(self).inner@ == old(self).inner@.update(old(self).len as int, v),
            final(self).canary == old(self).canary,
            final(self)@ == old(self)@.push(v),
            old(self).len < 255 ==> final(self).contents() == old(self).contents().push(v),
    {
        let len = self.len.wrapping_add(1);
        self.len = len;
        self.inner[len.wrapping_sub(1) as usize] = v;
    }

    /// Pop the top cell; the depth wraps from 0 to 255.
    pub fn pop(&mut self) -> (r: T)
        ensures
            r == old(self).inner@[old(self).len.wrapping_sub(1) as int],
            r == old(self)@.peek(1),
            final(self)@ == old(self)@.drop_n(1),
            final(self).len == old(self).len.wrapping_sub(1),
            final(self).inner == old(self).inner,
            final(self).canary == old(self).canary,
            old(self).len > 0 ==> final(self).contents() == old(self).contents().drop_last() && r
                == old(self).contents().last(),
    {
        let result = self.inner[self.len.wrapping_sub(1) as usize];
        self.len = self.len.wrapping_sub(1);
        result
    }

    /// Push `v1` then `v2`.
    pub fn push2(&mut self, v1: T, v2: T)
        ensures
            final(self)@ == old(self)@.push(v1).push(v2),
            final(self).len == old(self).len.wrapping_add(2),
            final(self).inner@ == old(self).inner@.update(old(self).len as int, v1).update(
                old(self).len.wrapping_add(1) as int,
                v2,
            ),
            final(self).canary == old(self).canary,
            old(self).len < 254 ==> final(self).contents() == old(self).contents().push(v1).push(
                v2,
            ),
    {
        let len = self.len.wrapping_add(2);
        self.len = len;
        self.inner[self.len.wrapping_sub(2) as usize] = v1;
        self.inner[self.len.wrapping_sub(1) as usize] = v2;
        proof {
            if old(self).len < 254 {
                assert(final(self).contents() =~= old(self).contents().push(v1).push(v2));
            }
        }
    }

    /// Push `v1`, `v2` then `v3`.
    pub fn push3(&mut self, v1: T, v2: T, v3: T)
        ensures
            final(self)@ == old(self)@.push(v1).push(v2).push(v3),
            final(self).len == old(self).len.wrapping_add(3),
            final(self).inner@ == old(self).inner@.update(old(self).len as int, v1).update(
                old(self).len.wrapping_add(1) as int,
                v2,
            ).update(old(self).len.wrapping_add(2) as int, v3),
            final(self).canary == old(self).canary,
            old(self).len < 253 ==> final(self).contents() == old(self).contents().push(v1).push(
                v2,
            ).push(v3),
    {
        let len = self.len.wrapping_add(3);
        self.len = len;
        self.inner[self.len.wrapping_sub(3) as usize] = v1;
        self.inner[self.len.wrapping_sub(2) as usize] = v2;
        self.inner[self.len.wrapping_sub(1) as usize] = v3;
        proof {
            if old(self).len < 253 {
                assert(final(self).contents() =~= old(self).contents().push(v1).push(v2).push(v3));
            }
        }
    }

    /// Pop two cells; the first of the pair was the deeper one.
    pub fn pop2(&mut self) -> (r: (T, T))
        ensures
            r == (
                old(self).inner@[old(self).len.wrapping_sub(2) as int],
                old(self).inner@[old(self).len.wrapping_sub(1) as int],
            ),
            r == (old(self)@.peek(2), old(self)@.peek(1)),
            final(self)@ == old(self)@.drop_n(2),
            final(self).len == old(self).len.wrapping_sub(2),
            final(self).inner == old(self).inner,
            final(self).canary == old(self).canary,
            old(self).len >= 2 ==> final(self).contents() == old(self).contents().take(
                old(self).len - 2,
            ),
    {
        let result = (
            self.inner[self.len.wrapping_sub(2) as usize],
            self.inner[self.len.wrapping_sub(1) as usize],
        );
        self.len = self.len.wrapping_sub(2);
        proof {
            if old(self).len >= 2 {
                assert(final(self).contents() =~= old(self).contents().take(old(self).len - 2));
            }
        }
        result
    }

    /// Pop three cells; the first of the triple was the deepest one.
    pub fn pop3(&mut self) -> (r: (T, T, T))
        ensures
            r == (
                old(self).inner@[old(self).len.wrapping_sub(3) as int],
                old(self).inner@[old(self).len.wrapping_sub(2) as int],
                old(self).inner@[old(self).len.wrapping_sub(1) as int],
            ),
            r == (old(self)@.peek(3), old(self)@.peek(2), old(self)@.peek(1)),
            final(self)@ == old(self)@.drop_n(3),
            final(self).len == old(self).len.wrapping_sub(3),
            final(self).inner == old(self).inner,
            final(self).canary == old(self).canary,
            old(self).len >= 3 ==> final(self).contents() == old(self).contents().take(
                old(self).len - 3,
            ),
    {
        let result = (
            self.inner[self.len.wrapping_sub(3) as usize],
            self.inner[self.len.wrapping_sub(2) as usize],
            self.inner[self.len.wrapping_sub(1) as usize],
        );
        self.len = self.len.wrapping_sub(3);
        proof {
            if old(self).len >= 3 {
                assert(final(self).contents() =~= old(self).contents().take(old(self).len - 3));
            }
        }
        result
    }

    /// The top cell (the cell below the depth, wrapping).
    pub fn last(&self) -> (r: Option<T>)
        ensures
            r == Some(self.inner@[self.len.wrapping_sub(1) as int]),
            r == Some(self@.peek(1)),
    {
        Some(self.inner[self.len.wrapping_sub(1) as usize])
    }

    /// The cell at position `pos`, counted from the bottom.
    pub fn get(&self, pos: u8) -> (r: Option<T>)
        ensures
            r == Some(self.inner@[pos as int]),
    {
        Some(self.inner[pos as usize])
    }

    /// The cell `k` places below the depth (1 is the top).
    pub fn peek(&self, k: u8) -> (r: T)
        ensures
            r == self@.peek(k),
    {
        self.inner[self.len.wrapping_sub(k) as usize]
    }

    /// Set the cell `k` places below the depth to `v`.
    pub fn poke(&mut self, k: u8, v: T)
        ensures
            final(self)@ == old(self)@.poke(k, v),
    {
        let i = self.len.wrapping_sub(k) as usize;
        self.inner[i] = v;
    }

    /// Shrink the depth by `k`, wrapping.
    pub fn drop_n(&mut self, k: u8)
        ensures
            final(self)@ == old(self)@.drop_n(k),
    {
        self.len = self.len.wrapping_sub(k);
    }

    /// The depth of the stack.
    pub fn len(&self) -> (r: u8)
        ensures
            r == self.len,
    {
        self.len
    }

    /// The stack holds no cell.
    pub fn is_empty(&self) -> (r: bool)
        ensures
            r == (self.len == 0),
    {
        self.len == 0
    }

    /// The cells on the stack, bottom first.
    pub fn as_slice(&self) -> (r: &[T])
        ensures
            r@ == self.contents(),
    {
        slice_subrange(self.inner.as_slice(), 0, self.len as usize)
    }
}

/// Indices of the words that the compiler lays down itself.
pub struct ForwardReferences {
    pub idx_lit: usize,
    pub idx_flit: usize,
    pub idx_exit: usize,
    pub idx_zero_branch: usize,
    pub idx_branch: usize,
    pub idx_do: usize,
    pub idx_qdo: usize,
    pub idx_loop: usize,
    pub idx_plus_loop: usize,
    pub idx_s_quote: usize,
    pub idx_type: usize,
    pub idx_over: usize,
    pub idx_equal: usize,
    pub idx_drop: usize,
}

impl ForwardReferences {
    /// All references unresolved (0).
    pub fn new() -> (r: ForwardReferences)
        ensures
            r.idx_lit == 0 && r.idx_flit == 0 && r.idx_exit == 0 && r.idx_zero_branch == 0
                && r.idx_branch == 0 && r.idx_do == 0 && r.idx_qdo == 0 && r.idx_loop == 0
                && r.idx_plus_loop == 0 && r.idx_s_quote == 0 && r.idx_type == 0 && r.idx_over
                == 0 && r.idx_equal == 0 && r.idx_drop == 0,
    {
        ForwardReferences {
            idx_lit: 0,
            idx_flit: 0,
            idx_exit: 0,
            idx_zero_branch: 0,
            idx_branch: 0,
            idx_do: 0,
            idx_qdo: 0,
            idx_loop: 0,
            idx_plus_loop: 0,
            idx_s_quote: 0,
            idx_type: 0,
            idx_over: 0,
            idx_equal: 0,
            idx_drop: 0,
        }
    }
}

/// The state of the outer and inner interpreters.
pub struct State {
    pub is_compiling: bool,
    pub instruction_pointer: usize,
    pub word_pointer: usize,
    pub source_index: usize,
}

impl State {
    /// Interpreting, with every pointer at 0.
    pub fn new() -> (r: State)
        ensures
            !r.is_compiling,
            r.instruction_pointer == 0,
            r.word_pointer == 0,
            r.source_index == 0,
    {
        State { is_compiling: false, instruction_pointer: 0, word_pointer: 0, source_index: 0 }
    }

    /// The index of the word being executed.
    pub fn word_pointer(&self) -> (r: usize)
        ensures
            r == self.word_pointer,
    {
        self.word_pointer
    }
}

/// A name in the symbol table, identified by its index there.
#[derive(PartialEq, Eq, Clone, Copy, Debug, Structural)]
pub struct Symbol {
    pub id: usize,
}

impl Symbol {
    /// The index of the symbol in the symbol table.
    pub fn id(&self) -> (r: usize)
        ensures
            r == self.id,
    {
        self.id
    }
}

/// An unresolved control structure on the control-flow stack, with the
/// positions in data space that it will patch or branch to.
#[derive(Clone, Copy, Debug)]
pub enum Control {
    Default,
    Canary,
    If(usize),
    Else(usize),
    Begin(usize),
    While(usize),
    Do(usize, usize),
    Case,
    Of(usize),
    Endof(usize),
}

impl PartialEq for Control {
    fn eq(&self, other: &Control) -> (r: bool) {
        match (self, other) {
            (Control::Default, Control::Default) => true,
            (Control::Canary, Control::Canary) => true,
            (Control::If(a), Control::If(b)) => *a == *b,
            (Control::Else(a), Control::Else(b)) => *a == *b,
            (Control::Begin(a), Control::Begin(b)) => *a == *b,
            (Control::While(a), Control::While(b)) => *a == *b,
            (Control::Do(a, c), Control::Do(b, d)) => *a == *b && *c == *d,
            (Control::Case, Control::Case) => true,
            (Control::Of(a), Control::Of(b)) => *a == *b,
            (Control::Endof(a), Control::Endof(b)) => *a == *b,
            _ => false,
        }
    }
}

impl vstd::std_specs::cmp::PartialEqSpecImpl for Control {
    open spec fn obeys_eq_spec() -> bool {
        true
    }

    open spec fn eq_spec(&self, other: &Control) -> bool {
        *self == *other
    }
}

impl Default for Control {
    fn default() -> (r: Control)
        ensures
            r == Control::Default,
    {
        Control::Default
    }
}

impl Control {
    /// The name of the kind of control structure.
    pub fn name(&self) -> (r: &'static str)
        ensures
            r@ == control_name(*self),
    {
        match self {
            Control::Default => "Default",
            Control::Canary => "Canary",
            Control::If(_) => "If",
            Control::Else(_) => "Else",
            Control::Begin(_) => "Begin",
            Control::While(_) => "While",
            Control::Do(_, _) => "Do",
            Control::Case => "Case",
            Control::Of(_) => "Of",
            Control::Endof(_) => "Endof",
        }
    }
}

/// The name of the kind of control structure `c`.
pub open spec fn control_name(c: Control) -> Seq<char> {
    match c {
        Control::Default => "Default"@,
        Control::Canary => "Canary"@,
        Control::If(_) => "If"@,
        Control::Else(_) => "Else"@,
        Control::Begin(_) => "Begin"@,
        Control::While(_) => "While"@,
        Control::Do(_, _) => "Do"@,
        Control::Case => "Case"@,
        Control::Of(_) => "Of"@,
        Control::Endof(_) => "Endof"@,
    }
}

} // verus!
