//! Properties of the machine that relate several of its words.

use vstd::prelude::*;

use crate::exception::Exception;
use crate::kernel::{StackView, State};
use crate::memory::{lemma_field_read_after_write, lemma_i32_round_trip};
use crate::outer::{eq_ignore_case, to_lower};
use crate::term::{edit_spec, Key};
use crate::facility::time_cells;
use crate::vm::{Action, Compilation, VmView};

verus! {

broadcast use crate::memory::lemma_write_field_len;

/// The three stacks have their 256 cells.
pub open spec fn stacks_ok(v: VmView) -> bool {
    v.s.cells.len() == 256 && v.r.cells.len() == 256 && v.c.cells.len() == 256
}

/// Every word of the word list names a symbol of the symbol table.
pub open spec fn symbols_ok(v: VmView) -> bool {
    forall|i: int| 0 <= i < v.words.len() ==> #[trigger] v.words[i].symbol.id < v.symbols.len()
}

/// Storing `x` at `a` and fetching from `a` gives back `x`, cut to the
/// 32 bits of a data-space field and sign-extended; the depth of the data
/// stack is one more than before, and no error is raised.
pub proof fn law_store_then_fetch(v: VmView, x: isize, a: isize)
    requires
        v.wf(),
        stacks_ok(v),
        v.cell_addr_ok(a, 4),
    ensures
        ({
            let w = v.with_s(v.s.push(x).push(a)).store();
            let r = w.with_s(w.s.push(a)).fetch();
            &&& r.s.peek(1) == (x as i32) as isize
            &&& r.s.len == v.s.len.wrapping_add(1)
            &&& r.error == v.error
            &&& r.mem.len() == v.mem.len()
        }),
{
    let s2 = v.s.push(x).push(a);
    assert(s2.peek(1) == a);
    assert(s2.peek(2) == x);
    let w = v.with_s(s2).store();
    lemma_field_read_after_write(v.mem, a as int, (x as i32) as u32);
    lemma_i32_round_trip(x as i32);
    assert(w.mem == crate::memory::write_field(v.mem, a as int, (x as i32) as u32));
}

/// A literal compiled at the data-space pointer, when executed, pushes its
/// value (cut to 32 bits) and steps past its operand.
pub proof fn law_compiled_literal(v: VmView, n: isize)
    requires
        v.wf(),
        stacks_ok(v),
        v.room(8),
    ensures
        ({
            let w = v.compile_integer(n);
            let x = w.with_ip((v.here + 4) as usize).lit();
            &&& x.s.peek(1) == (n as i32) as isize
            &&& x.s.len == v.s.len.wrapping_add(1)
            &&& x.ip() == v.here + 8
            &&& x.error == v.error
        }),
{
    let w1 = v.comp(v.refs.idx_lit as u32);
    lemma_field_read_after_write(v.mem, v.here as int, v.refs.idx_lit as u32);
    lemma_field_read_after_write(w1.mem, (v.here + 4) as int, (n as i32) as u32);
    lemma_i32_round_trip(n as i32);
}

/// `then` resolves the forward branch that `if` left: the operand of the
/// `0branch` holds the address just after it, where the code after `then`
/// goes on.
pub proof fn law_if_then(v: VmView)
    requires
        v.wf(),
        stacks_ok(v),
        v.room(8),
        v.here + 8 <= i32::MAX,
        !crate::memory_words::underflowed(v.c),
    ensures
        ({
            let x = v.imm_if().imm_then();
            &&& x.field((v.here + 4) as int) == (v.here + 8) as i32
            &&& x.here == v.here + 8
            &&& x.c.len == v.c.len
            &&& x.error == v.error
        }),
{
    let w1 = v.comp(v.refs.idx_zero_branch as u32);
    let w2 = w1.comp(0);
    lemma_field_read_after_write(v.mem, v.here as int, v.refs.idx_zero_branch as u32);
    lemma_field_read_after_write(w1.mem, (v.here + 4) as int, 0);
    let w3 = w2.with_c(w2.c.push(crate::kernel::Control::If(w2.here as usize)));
    assert(v.c.len <= 128);
    assert(w3.c.peek(1) == crate::kernel::Control::If(w2.here as usize));
    assert(w3.c.drop_n(1).cells[255] == v.c.cells[255]);
    lemma_field_read_after_write(w2.mem, (v.here + 4) as int, ((v.here + 8) as i32) as u32);
    lemma_i32_round_trip((v.here + 8) as i32);
}

/// A new definition is found by its name, in any ASCII case.
pub proof fn law_find_defined(
    v: VmView,
    name: Seq<u8>,
    other: Seq<u8>,
    action: Action,
    cs: Compilation,
)
    requires
        eq_ignore_case(name, other),
        v.words.len() < usize::MAX,
        v.symbols.len() < usize::MAX,
    ensures
        v.add_word(name, action, cs).find(other) == Some(v.words.len() as usize),
{
    let w = v.add_word(name, action, cs);
    assert(w.is_named(v.words.len() as int, other));
}

/// A definition that is still hidden, as a colon definition is until its
/// `;`, is not found: the search goes on as if it were not there.
pub proof fn law_hidden_not_found(
    v: VmView,
    name: Seq<u8>,
    other: Seq<u8>,
    action: Action,
    cs: Compilation,
)
    requires
        symbols_ok(v),
        v.words.len() < usize::MAX,
        v.symbols.len() < usize::MAX,
    ensures
        ({
            let w = v.add_word(name, action, cs);
            w.set_hidden(v.words.len() as usize, true).find(other) == v.find(other)
        }),
{
    let w = v.add_word(name, action, cs).set_hidden(v.words.len() as usize, true);
    assert(!w.is_named(v.words.len() as int, other));
    lemma_find_below_prefix(v, w, other, v.words.len() as int);
}

/// The search below `n` looks only at the first `n` words and their names.
proof fn lemma_find_below_prefix(v: VmView, w: VmView, name: Seq<u8>, n: int)
    requires
        0 <= n <= v.words.len(),
        n <= w.words.len(),
        symbols_ok(v),
        v.symbols.len() <= w.symbols.len(),
        forall|i: int| 0 <= i < n ==> #[trigger] w.words[i] == v.words[i],
        forall|k: int| 0 <= k < v.symbols.len() ==> #[trigger] w.symbols[k] == v.symbols[k],
    ensures
        w.find_below(name, n) == v.find_below(name, n),
    decreases n,
{
    if n > 0 {
        assert(w.is_named(n - 1, name) == v.is_named(n - 1, name));
        lemma_find_below_prefix(v, w, name, n - 1);
    }
}

/// Executing a marker forgets it and everything defined after it: the word
/// list and the symbols are as before the marker, and the data-space
/// pointer is where the marker's data field began.
pub proof fn law_marker_forgets(v: VmView, name: Seq<u8>)
    requires
        v.wf(),
        v.symbols.len() <= usize::MAX,
        v.words.len() < usize::MAX,
    ensures
        ({
            let w = v.add_word(name, Action::Unmark, Compilation::Word);
            let x = w.dispatch(v.words.len() as usize);
            &&& x.words == v.words
            &&& x.symbols == v.symbols
            &&& x.here == v.aligned_here()
            &&& x.error == v.error
        }),
{
    let w = v.add_word(name, Action::Unmark, Compilation::Word);
    assert(w.words.take(v.words.len() as int) =~= v.words);
    assert(w.symbols.take(v.symbols.len() as int) =~= v.symbols);
}

/// What `>r` moves to the return stack, `r>` gives back: the data stack is
/// as before.
pub proof fn law_to_r_r_from(v: VmView)
    requires
        stacks_ok(v),
    ensures
        v.p_to_r().r_from().s == v.s,
{
    let w = v.p_to_r().r_from();
    assert(w.s.cells =~= v.s.cells);
}

/// `swap` twice leaves the machine as it was.
pub proof fn law_swap_swap(v: VmView)
    requires
        stacks_ok(v),
    ensures
        v.swap().swap() == v,
{
    let w = v.swap().swap();
    assert(w.s.cells =~= v.s.cells);
    assert(w.s == v.s);
}

/// Executing an index outside the word list aborts with `UndefinedWord`:
/// nothing but the words of the word list can be executed.
pub proof fn law_execute_outside(v: VmView, i: usize)
    requires
        i >= v.words.len(),
    ensures
        v.dispatch(i).error == Some(Exception::UndefinedWord),
        v.dispatch(i).s.len == 0,
        v.dispatch(i).pending_handler,
        v.dispatch(i).mem == v.mem,
{
}

/// Case folding: a name equals itself up to ASCII case, and equal names
/// up to case fold to the same bytes.
pub proof fn law_ignore_case(a: Seq<u8>, b: Seq<u8>)
    ensures
        eq_ignore_case(a, a),
        eq_ignore_case(a, b) ==> eq_ignore_case(b, a),
        eq_ignore_case(a, b) ==> crate::outer::lower_bytes(a) == crate::outer::lower_bytes(b),
{
    if eq_ignore_case(a, b) {
        assert(crate::outer::lower_bytes(a) =~= crate::outer::lower_bytes(b));
    }
}

/// `endcase` patches fields only: the data space keeps its size and its
/// pointer.
proof fn lemma_resolve_endofs_keeps_data_space(v: VmView)
    requires
        v.wf(),
    ensures
        v.resolve_endofs().wf(),
        v.resolve_endofs().mem.len() == v.mem.len(),
        v.resolve_endofs().here == v.here,
    decreases v.c.len,
{
    let top = v.c.peek(1);
    let w = v.with_c(v.c.drop_n(1));
    match top {
        crate::kernel::Control::Endof(p) => {
            if !crate::memory_words::underflowed(w.c) && w.patch_ok(p) && w.c.len < v.c.len {
                lemma_field_read_after_write(w.mem, p - 4, (w.here as i32) as u32);
                lemma_resolve_endofs_keeps_data_space(w.patch(p));
            }
        },
        _ => {},
    }
}

/// These words keep the data space.
proof fn lemma_simple_words_keep_data_space_1(v: VmView, a: Action)
    requires
        v.wf(),
        a == Action::Noop || a == Action::Exit || a == Action::Lit || a == Action::SQuoteRuntime || a == Action::Branch || a == Action::ZeroBranch || a == Action::DoRuntime || a == Action::QDoRuntime || a == Action::LoopRuntime || a == Action::PlusLoopRuntime || a == Action::Unloop || a == Action::Leave,
    ensures
        v.act(a).wf(),
        v.act(a).mem.len() == v.mem.len(),
{
    match a {
        Action::Noop => {},
        Action::Exit => {},
        Action::Lit => {},
        Action::SQuoteRuntime => {},
        Action::Branch => {},
        Action::ZeroBranch => {},
        Action::DoRuntime => {},
        Action::QDoRuntime => {},
        Action::LoopRuntime => {},
        Action::PlusLoopRuntime => {},
        Action::Unloop => {},
        Action::Leave => {},
        _ => {},
    }
}

/// These words keep the data space.
proof fn lemma_simple_words_keep_data_space_2(v: VmView, a: Action)
    requires
        v.wf(),
        a == Action::I || a == Action::J || a == Action::ToR || a == Action::RFrom || a == Action::RFetch || a == Action::TwoToR || a == Action::TwoRFrom || a == Action::TwoRFetch || a == Action::Execute || a == Action::Dup || a == Action::Drop || a == Action::Swap,
    ensures
        v.act(a).wf(),
        v.act(a).mem.len() == v.mem.len(),
{
    match a {
        Action::I => {},
        Action::J => {},
        Action::ToR => {},
        Action::RFrom => {},
        Action::RFetch => {},
        Action::TwoToR => {},
        Action::TwoRFrom => {},
        Action::TwoRFetch => {},
        Action::Execute => {},
        Action::Dup => {},
        Action::Drop => {},
        Action::Swap => {},
        _ => {},
    }
}

/// These words keep the data space.
proof fn lemma_simple_words_keep_data_space_3(v: VmView, a: Action)
    requires
        v.wf(),
        a == Action::Over || a == Action::Nip || a == Action::Depth || a == Action::CheckStacks || a == Action::ZeroLess || a == Action::Equals || a == Action::LessThan || a == Action::Invert || a == Action::And || a == Action::Or || a == Action::Xor || a == Action::Lshift,
    ensures
        v.act(a).wf(),
        v.act(a).mem.len() == v.mem.len(),
{
    match a {
        Action::Over => {},
        Action::Nip => {},
        Action::Depth => {},
        Action::CheckStacks => {},
        Action::ZeroLess => {},
        Action::Equals => {},
        Action::LessThan => {},
        Action::Invert => {},
        Action::And => {},
        Action::Or => {},
        Action::Xor => {},
        Action::Lshift => {},
        _ => {},
    }
}

/// These words keep the data space.
proof fn lemma_simple_words_keep_data_space_4(v: VmView, a: Action)
    requires
        v.wf(),
        a == Action::Rshift || a == Action::OnePlus || a == Action::OneMinus || a == Action::Minus || a == Action::Plus || a == Action::Star || a == Action::SlashMod || a == Action::CellPlus || a == Action::Cells || a == Action::Fetch || a == Action::Store || a == Action::CharPlus,
    ensures
        v.act(a).wf(),
        v.act(a).mem.len() == v.mem.len(),
{
    match a {
        Action::Rshift => {},
        Action::OnePlus => {},
        Action::OneMinus => {},
        Action::Minus => {},
        Action::Plus => {},
        Action::Star => {},
        Action::SlashMod => {},
        Action::CellPlus => {},
        Action::Cells => {},
        Action::Fetch => {},
        Action::Store => {},
        Action::CharPlus => {},
        _ => {},
    }
}

/// `BracketChar` keeps the data space.
proof fn lemma_bracket_char_keeps_data_space(v: VmView, a: Action)
    requires
        v.wf(),
        a == Action::BracketChar,
    ensures
        v.act(a).wf(),
        v.act(a).mem.len() == v.mem.len(),
{
}

/// `Semicolon` keeps the data space.
proof fn lemma_semicolon_keeps_data_space(v: VmView, a: Action)
    requires
        v.wf(),
        a == Action::Semicolon,
    ensures
        v.act(a).wf(),
        v.act(a).mem.len() == v.mem.len(),
{
}

/// `If` keeps the data space.
proof fn lemma_if_keeps_data_space(v: VmView, a: Action)
    requires
        v.wf(),
        a == Action::If,
    ensures
        v.act(a).wf(),
        v.act(a).mem.len() == v.mem.len(),
{
}

/// `Else` keeps the data space.
proof fn lemma_else_keeps_data_space(v: VmView, a: Action)
    requires
        v.wf(),
        a == Action::Else,
    ensures
        v.act(a).wf(),
        v.act(a).mem.len() == v.mem.len(),
{
}

/// `Then` keeps the data space.
proof fn lemma_then_keeps_data_space(v: VmView, a: Action)
    requires
        v.wf(),
        a == Action::Then,
    ensures
        v.act(a).wf(),
        v.act(a).mem.len() == v.mem.len(),
{
}

/// `Of` keeps the data space.
proof fn lemma_of_keeps_data_space(v: VmView, a: Action)
    requires
        v.wf(),
        a == Action::Of,
    ensures
        v.act(a).wf(),
        v.act(a).mem.len() == v.mem.len(),
{
}

/// `Endof` keeps the data space.
proof fn lemma_endof_keeps_data_space(v: VmView, a: Action)
    requires
        v.wf(),
        a == Action::Endof,
    ensures
        v.act(a).wf(),
        v.act(a).mem.len() == v.mem.len(),
{
}

/// `Endcase` keeps the data space.
proof fn lemma_endcase_keeps_data_space(v: VmView, a: Action)
    requires
        v.wf(),
        a == Action::Endcase,
    ensures
        v.act(a).wf(),
        v.act(a).mem.len() == v.mem.len(),
{
    assert(v.act(a) == v.imm_endcase());
    if v.room(4) {
        let w = v.comp(v.refs.idx_drop as u32);
        assert(w.wf());
        lemma_resolve_endofs_keeps_data_space(w);
    }
}

/// `While` keeps the data space.
proof fn lemma_while_keeps_data_space(v: VmView, a: Action)
    requires
        v.wf(),
        a == Action::While,
    ensures
        v.act(a).wf(),
        v.act(a).mem.len() == v.mem.len(),
{
}

/// `Repeat` keeps the data space.
proof fn lemma_repeat_keeps_data_space(v: VmView, a: Action)
    requires
        v.wf(),
        a == Action::Repeat,
    ensures
        v.act(a).wf(),
        v.act(a).mem.len() == v.mem.len(),
{
}

/// `Again` keeps the data space.
proof fn lemma_again_keeps_data_space(v: VmView, a: Action)
    requires
        v.wf(),
        a == Action::Again,
    ensures
        v.act(a).wf(),
        v.act(a).mem.len() == v.mem.len(),
{
}

/// `Recurse` keeps the data space.
proof fn lemma_recurse_keeps_data_space(v: VmView, a: Action)
    requires
        v.wf(),
        a == Action::Recurse,
    ensures
        v.act(a).wf(),
        v.act(a).mem.len() == v.mem.len(),
{
}

/// `Do` keeps the data space.
proof fn lemma_do_keeps_data_space(v: VmView, a: Action)
    requires
        v.wf(),
        a == Action::Do,
    ensures
        v.act(a).wf(),
        v.act(a).mem.len() == v.mem.len(),
{
}

/// `QDo` keeps the data space.
proof fn lemma_q_do_keeps_data_space(v: VmView, a: Action)
    requires
        v.wf(),
        a == Action::QDo,
    ensures
        v.act(a).wf(),
        v.act(a).mem.len() == v.mem.len(),
{
}

/// `Loop` keeps the data space.
proof fn lemma_loop_keeps_data_space(v: VmView, a: Action)
    requires
        v.wf(),
        a == Action::Loop,
    ensures
        v.act(a).wf(),
        v.act(a).mem.len() == v.mem.len(),
{
}

/// `PlusLoop` keeps the data space.
proof fn lemma_plus_loop_keeps_data_space(v: VmView, a: Action)
    requires
        v.wf(),
        a == Action::PlusLoop,
    ensures
        v.act(a).wf(),
        v.act(a).mem.len() == v.mem.len(),
{
}

/// These words keep the data space.
proof fn lemma_simple_words_keep_data_space_5(v: VmView, a: Action)
    requires
        v.wf(),
        a == Action::Chars || a == Action::Here || a == Action::Allot || a == Action::CFetch || a == Action::CStore || a == Action::Base || a == Action::Paren || a == Action::Backslash || a == Action::LeftBracket || a == Action::Case || a == Action::Begin || a == Action::True,
    ensures
        v.act(a).wf(),
        v.act(a).mem.len() == v.mem.len(),
{
    match a {
        Action::Chars => {},
        Action::Here => {},
        Action::Allot => {},
        Action::CFetch => {},
        Action::CStore => {},
        Action::Base => {},
        Action::Paren => {},
        Action::Backslash => {},
        Action::LeftBracket => {},
        Action::Case => {},
        Action::Begin => {},
        Action::True => {},
        _ => {},
    }
}

/// These words keep the data space.
proof fn lemma_simple_words_keep_data_space_6(v: VmView, a: Action)
    requires
        v.wf(),
        a == Action::False || a == Action::ZeroEquals || a == Action::ZeroGreater || a == Action::ZeroNotEquals || a == Action::GreaterThan || a == Action::NotEquals || a == Action::Within || a == Action::Rot || a == Action::MinusRot || a == Action::TwoDup || a == Action::TwoDrop || a == Action::TwoSwap,
    ensures
        v.act(a).wf(),
        v.act(a).mem.len() == v.mem.len(),
{
    match a {
        Action::False => {},
        Action::ZeroEquals => {},
        Action::ZeroGreater => {},
        Action::ZeroNotEquals => {},
        Action::GreaterThan => {},
        Action::NotEquals => {},
        Action::Within => {},
        Action::Rot => {},
        Action::MinusRot => {},
        Action::TwoDup => {},
        Action::TwoDrop => {},
        Action::TwoSwap => {},
        _ => {},
    }
}

/// `Colon` keeps the data space.
proof fn lemma_colon_keeps_data_space(v: VmView, a: Action)
    requires
        v.wf(),
        a == Action::Colon,
    ensures
        v.act(a).wf(),
        v.act(a).mem.len() == v.mem.len(),
{
}

/// `Constant` keeps the data space.
proof fn lemma_constant_keeps_data_space(v: VmView, a: Action)
    requires
        v.wf(),
        a == Action::Constant,
    ensures
        v.act(a).wf(),
        v.act(a).mem.len() == v.mem.len(),
{
}

/// `Variable` keeps the data space.
proof fn lemma_variable_keeps_data_space(v: VmView, a: Action)
    requires
        v.wf(),
        a == Action::Variable,
    ensures
        v.act(a).wf(),
        v.act(a).mem.len() == v.mem.len(),
{
}

/// `Create` keeps the data space.
proof fn lemma_create_keeps_data_space(v: VmView, a: Action)
    requires
        v.wf(),
        a == Action::Create,
    ensures
        v.act(a).wf(),
        v.act(a).mem.len() == v.mem.len(),
{
}

/// `Marker` keeps the data space.
proof fn lemma_marker_keeps_data_space(v: VmView, a: Action)
    requires
        v.wf(),
        a == Action::Marker,
    ensures
        v.act(a).wf(),
        v.act(a).mem.len() == v.mem.len(),
{
}

/// These words keep the data space.
proof fn lemma_simple_words_keep_data_space_7(v: VmView, a: Action)
    requires
        v.wf(),
        a == Action::TwoOver || a == Action::Slash || a == Action::Mod || a == Action::Abs || a == Action::Negate || a == Action::ParseWord || a == Action::Char || a == Action::Parse || a == Action::Tick || a == Action::RightBracket || a == Action::Comma || a == Action::HandlerStore,
    ensures
        v.act(a).wf(),
        v.act(a).mem.len() == v.mem.len(),
{
    match a {
        Action::TwoOver => {},
        Action::Slash => {},
        Action::Mod => {},
        Action::Abs => {},
        Action::Negate => {},
        Action::ParseWord => {},
        Action::Char => {},
        Action::Parse => {},
        Action::Tick => {},
        Action::RightBracket => {},
        Action::Comma => {},
        Action::HandlerStore => {},
        _ => {},
    }
}

/// `CompileToken` keeps the data space.
proof fn lemma_compile_token_keeps_data_space(v: VmView, a: Action)
    requires
        v.wf(),
        a == Action::CompileToken,
    ensures
        v.act(a).wf(),
        v.act(a).mem.len() == v.mem.len(),
{
}

/// `InterpretToken` keeps the data space.
proof fn lemma_interpret_token_keeps_data_space(v: VmView, a: Action)
    requires
        v.wf(),
        a == Action::InterpretToken,
    ensures
        v.act(a).wf(),
        v.act(a).mem.len() == v.mem.len(),
{
}

/// These words keep the data space.
proof fn lemma_simple_words_keep_data_space_8(v: VmView, a: Action)
    requires
        v.wf(),
        a == Action::ErrorQ || a == Action::HandleError || a == Action::Reset || a == Action::Abort || a == Action::Compiling || a == Action::TokenEmpty || a == Action::Nest || a == Action::Var || a == Action::Const || a == Action::Unmark || a == Action::Emit || a == Action::Type,
    ensures
        v.act(a).wf(),
        v.act(a).mem.len() == v.mem.len(),
{
    match a {
        Action::ErrorQ => {},
        Action::HandleError => {},
        Action::Reset => {},
        Action::Abort => {},
        Action::Compiling => {},
        Action::TokenEmpty => {},
        Action::Nest => {},
        Action::Var => {},
        Action::Const => {},
        Action::Unmark => {},
        Action::Emit => {},
        Action::Type => {},
        _ => {},
    }
}

/// `SQuote` keeps the data space.
proof fn lemma_s_quote_keeps_data_space(v: VmView, a: Action)
    requires
        v.wf(),
        a == Action::SQuote,
    ensures
        v.act(a).wf(),
        v.act(a).mem.len() == v.mem.len(),
{
}

/// `DotQuote` keeps the data space.
proof fn lemma_dot_quote_keeps_data_space(v: VmView, a: Action)
    requires
        v.wf(),
        a == Action::DotQuote,
    ensures
        v.act(a).wf(),
        v.act(a).mem.len() == v.mem.len(),
{
}

/// These words keep the data space.
proof fn lemma_simple_words_keep_data_space_9(v: VmView, a: Action)
    requires
        v.wf(),
        a == Action::DotParen || a == Action::MaxN || a == Action::MaxU || a == Action::DotR || a == Action::DotS || a == Action::Words || a == Action::DotMemory || a == Action::DotInput || a == Action::Ntime || a == Action::Utime || a == Action::FlushOutput || a == Action::FlushToErr,
    ensures
        v.act(a).wf(),
        v.act(a).mem.len() == v.mem.len(),
{
    match a {
        Action::DotParen => {},
        Action::MaxN => {},
        Action::MaxU => {},
        Action::DotR => {},
        Action::DotS => {},
        Action::Words => {},
        Action::DotMemory => {},
        Action::DotInput => {},
        Action::Ntime => {},
        Action::Utime => {},
        Action::FlushOutput => {},
        Action::FlushToErr => {},
        _ => {},
    }
}

/// These words keep the data space.
proof fn lemma_simple_words_keep_data_space_10(v: VmView, a: Action)
    requires
        v.wf(),
        a == Action::Bye || a is Host || a == Action::SetExecutionTimes || a == Action::DotXtime || a == Action::ClearXtime || a == Action::Flit || a == Action::FloatPlus || a == Action::Floats || a == Action::FAligned || a == Action::FAlign || a == Action::FFetch || a == Action::FStore,
    ensures
        v.act(a).wf(),
        v.act(a).mem.len() == v.mem.len(),
{
    match a {
        Action::Bye => {},
        Action::Host(_) => {},
        Action::SetExecutionTimes => {},
        Action::DotXtime => {},
        Action::ClearXtime => {},
        Action::Flit => {},
        Action::FloatPlus => {},
        Action::Floats => {},
        Action::FAligned => {},
        Action::FAlign => {},
        Action::FFetch => {},
        Action::FStore => {},
        _ => {},
    }
}

/// These words keep the data space.
proof fn lemma_simple_words_keep_data_space_11(v: VmView, a: Action)
    requires
        v.wf(),
        a == Action::FConstant || a == Action::FConst,
    ensures
        v.act(a).wf(),
        v.act(a).mem.len() == v.mem.len(),
{
    match a {
        Action::FConstant => {},
        Action::FConst => {},
        _ => {},
    }
}

/// No word writes outside data space: every word keeps the size of data
/// space and leaves the machine well formed.
pub proof fn law_words_keep_data_space(v: VmView, a: Action)
    requires
        v.wf(),
    ensures
        v.act(a).wf(),
        v.act(a).mem.len() == v.mem.len(),
{
    if a == Action::Noop || a == Action::Exit || a == Action::Lit || a == Action::SQuoteRuntime || a == Action::Branch || a == Action::ZeroBranch || a == Action::DoRuntime || a == Action::QDoRuntime || a == Action::LoopRuntime || a == Action::PlusLoopRuntime || a == Action::Unloop || a == Action::Leave {
        lemma_simple_words_keep_data_space_1(v, a);
    }
    if a == Action::I || a == Action::J || a == Action::ToR || a == Action::RFrom || a == Action::RFetch || a == Action::TwoToR || a == Action::TwoRFrom || a == Action::TwoRFetch || a == Action::Execute || a == Action::Dup || a == Action::Drop || a == Action::Swap {
        lemma_simple_words_keep_data_space_2(v, a);
    }
    if a == Action::Over || a == Action::Nip || a == Action::Depth || a == Action::CheckStacks || a == Action::ZeroLess || a == Action::Equals || a == Action::LessThan || a == Action::Invert || a == Action::And || a == Action::Or || a == Action::Xor || a == Action::Lshift {
        lemma_simple_words_keep_data_space_3(v, a);
    }
    if a == Action::Rshift || a == Action::OnePlus || a == Action::OneMinus || a == Action::Minus || a == Action::Plus || a == Action::Star || a == Action::SlashMod || a == Action::CellPlus || a == Action::Cells || a == Action::Fetch || a == Action::Store || a == Action::CharPlus {
        lemma_simple_words_keep_data_space_4(v, a);
    }
    if a == Action::BracketChar {
        lemma_bracket_char_keeps_data_space(v, a);
    }
    if a == Action::Semicolon {
        lemma_semicolon_keeps_data_space(v, a);
    }
    if a == Action::If {
        lemma_if_keeps_data_space(v, a);
    }
    if a == Action::Else {
        lemma_else_keeps_data_space(v, a);
    }
    if a == Action::Then {
        lemma_then_keeps_data_space(v, a);
    }
    if a == Action::Of {
        lemma_of_keeps_data_space(v, a);
    }
    if a == Action::Endof {
        lemma_endof_keeps_data_space(v, a);
    }
    if a == Action::Endcase {
        lemma_endcase_keeps_data_space(v, a);
    }
    if a == Action::While {
        lemma_while_keeps_data_space(v, a);
    }
    if a == Action::Repeat {
        lemma_repeat_keeps_data_space(v, a);
    }
    if a == Action::Again {
        lemma_again_keeps_data_space(v, a);
    }
    if a == Action::Recurse {
        lemma_recurse_keeps_data_space(v, a);
    }
    if a == Action::Do {
        lemma_do_keeps_data_space(v, a);
    }
    if a == Action::QDo {
        lemma_q_do_keeps_data_space(v, a);
    }
    if a == Action::Loop {
        lemma_loop_keeps_data_space(v, a);
    }
    if a == Action::PlusLoop {
        lemma_plus_loop_keeps_data_space(v, a);
    }
    if a == Action::Chars || a == Action::Here || a == Action::Allot || a == Action::CFetch || a == Action::CStore || a == Action::Base || a == Action::Paren || a == Action::Backslash || a == Action::LeftBracket || a == Action::Case || a == Action::Begin || a == Action::True {
        lemma_simple_words_keep_data_space_5(v, a);
    }
    if a == Action::False || a == Action::ZeroEquals || a == Action::ZeroGreater || a == Action::ZeroNotEquals || a == Action::GreaterThan || a == Action::NotEquals || a == Action::Within || a == Action::Rot || a == Action::MinusRot || a == Action::TwoDup || a == Action::TwoDrop || a == Action::TwoSwap {
        lemma_simple_words_keep_data_space_6(v, a);
    }
    if a == Action::Colon {
        lemma_colon_keeps_data_space(v, a);
    }
    if a == Action::Constant {
        lemma_constant_keeps_data_space(v, a);
    }
    if a == Action::Variable {
        lemma_variable_keeps_data_space(v, a);
    }
    if a == Action::Create {
        lemma_create_keeps_data_space(v, a);
    }
    if a == Action::Marker {
        lemma_marker_keeps_data_space(v, a);
    }
    if a == Action::TwoOver || a == Action::Slash || a == Action::Mod || a == Action::Abs || a == Action::Negate || a == Action::ParseWord || a == Action::Char || a == Action::Parse || a == Action::Tick || a == Action::RightBracket || a == Action::Comma || a == Action::HandlerStore {
        lemma_simple_words_keep_data_space_7(v, a);
    }
    if a == Action::CompileToken {
        lemma_compile_token_keeps_data_space(v, a);
    }
    if a == Action::InterpretToken {
        lemma_interpret_token_keeps_data_space(v, a);
    }
    if a == Action::ErrorQ || a == Action::HandleError || a == Action::Reset || a == Action::Abort || a == Action::Compiling || a == Action::TokenEmpty || a == Action::Nest || a == Action::Var || a == Action::Const || a == Action::Unmark || a == Action::Emit || a == Action::Type {
        lemma_simple_words_keep_data_space_8(v, a);
    }
    if a == Action::SQuote {
        lemma_s_quote_keeps_data_space(v, a);
    }
    if a == Action::DotQuote {
        lemma_dot_quote_keeps_data_space(v, a);
    }
    if a == Action::DotParen || a == Action::MaxN || a == Action::MaxU || a == Action::DotR || a == Action::DotS || a == Action::Words || a == Action::DotMemory || a == Action::DotInput || a == Action::Ntime || a == Action::Utime || a == Action::FlushOutput || a == Action::FlushToErr {
        lemma_simple_words_keep_data_space_9(v, a);
    }
    if a == Action::Bye || a is Host || a == Action::SetExecutionTimes || a == Action::DotXtime || a == Action::ClearXtime || a == Action::Flit || a == Action::FloatPlus || a == Action::Floats || a == Action::FAligned || a == Action::FAlign || a == Action::FFetch || a == Action::FStore {
        lemma_simple_words_keep_data_space_10(v, a);
    }
    if a == Action::FConstant || a == Action::FConst {
        lemma_simple_words_keep_data_space_11(v, a);
    }
}

/// Performing the action of any word keeps the data space and leaves the
/// machine well formed.
pub proof fn law_dispatch_keeps_data_space(v: VmView, i: usize)
    requires
        v.wf(),
    ensures
        v.dispatch(i).wf(),
        v.dispatch(i).mem.len() == v.mem.len(),
{
    let w = VmView { state: State { word_pointer: i, ..v.state }, ..v };
    if i < w.words.len() {
        law_words_keep_data_space(w, w.words[i as int].action);
    }
}

/// Running what is pending keeps the data space and leaves the machine
/// well formed.
pub proof fn law_settle_keeps_data_space(v: VmView, fuel: nat)
    requires
        v.wf(),
    ensures
        v.settle(fuel).wf(),
        v.settle(fuel).mem.len() == v.mem.len(),
    decreases fuel,
{
    if fuel > 0 {
        match v.pending_xt {
            Some(x) => {
                let w = VmView { pending_xt: None, ..v };
                law_dispatch_keeps_data_space(w, x);
                law_settle_keeps_data_space(w.dispatch(x), (fuel - 1) as nat);
            },
            None => {
                if v.pending_handler {
                    let u = VmView { pending_handler: false, ..v };
                    law_dispatch_keeps_data_space(u, v.handler);
                    let w = u.dispatch(v.handler);
                    law_settle_keeps_data_space(VmView { pending_handler: false, ..w }, (fuel - 1) as nat);
                }
            },
        }
    }
}

/// The inner interpreter keeps the data space and leaves the machine well
/// formed.
pub proof fn law_run_keeps_data_space(v: VmView, fuel: nat)
    requires
        v.wf(),
    ensures
        v.run_for(fuel).wf(),
        v.run_for(fuel).mem.len() == v.mem.len(),
    decreases fuel,
{
    if fuel > 0 && v.running() {
        if v.operand_ok() {
            let w = v.skip_operand();
            law_dispatch_keeps_data_space(w, v.operand() as usize);
            law_settle_keeps_data_space(w.dispatch(v.operand() as usize), crate::interp::max_steps());
        } else {
            law_settle_keeps_data_space(
                v.with_ip(0).abort_with(Exception::InvalidMemoryAddress),
                crate::interp::max_steps(),
            );
        }
        law_run_keeps_data_space(v.step(), (fuel - 1) as nat);
    }
}

/// What follows a token: the compiled code it started, the check of the
/// stacks and what is left pending keep the data space.
proof fn lemma_after_token_keeps_data_space(w: VmView)
    requires
        w.wf(),
    ensures
        w.run().wf(),
        w.run().mem.len() == w.mem.len(),
        w.run().check_stacks().settle(crate::interp::max_steps()).wf(),
        w.run().check_stacks().settle(crate::interp::max_steps()).mem.len() == w.mem.len(),
{
    law_run_keeps_data_space(w, crate::interp::max_steps());
    let r = w.run();
    law_words_keep_data_space(r, Action::CheckStacks);
    law_settle_keeps_data_space(r.check_stacks(), crate::interp::max_steps());
}

/// The outer interpreter keeps the data space and leaves the machine well
/// formed.
pub proof fn law_evaluate_keeps_data_space(v: VmView, fuel: nat)
    requires
        v.wf(),
    ensures
        v.evaluate_for(fuel).wf(),
        v.evaluate_for(fuel).mem.len() == v.mem.len(),
    decreases fuel,
{
    if fuel > 0 {
        law_words_keep_data_space(v, Action::ParseWord);
        let p = v.parse_word();
        if p.token.len() != 0 {
            if p.state.is_compiling {
                law_words_keep_data_space(p, Action::CompileToken);
                law_settle_keeps_data_space(p.compile_token(), crate::interp::max_steps());
            } else {
                law_words_keep_data_space(p, Action::InterpretToken);
                law_settle_keeps_data_space(p.interpret_token(), crate::interp::max_steps());
            }
            let w = p.do_token();
            lemma_after_token_keeps_data_space(w);
            let x = w.run().check_stacks().settle(crate::interp::max_steps());
            law_evaluate_keeps_data_space(x, (fuel - 1) as nat);
        }
    }
}

/// Going on after a request keeps the data space and leaves the machine
/// well formed.
pub proof fn law_resume_keeps_data_space(v: VmView)
    requires
        v.wf(),
    ensures
        v.resume().wf(),
        v.resume().mem.len() == v.mem.len(),
{
    lemma_after_token_keeps_data_space(v);
    let x = v.run().check_stacks().settle(crate::interp::max_steps());
    law_evaluate_keeps_data_space(x, crate::interp::max_steps());
}

/// A character typed and then erased with backspace leaves the line as it
/// was.
pub proof fn law_backspace_undoes_a_character(line: Seq<char>, c: char)
    ensures
        edit_spec(edit_spec(line, Key::Char(c)).0, Key::Backspace).0 == line,
{
    assert(line.push(c).drop_last() =~= line);
}

/// Dropping from an empty data stack is caught as a stack underflow when
/// the stacks are checked.
pub proof fn law_pop_empty_is_underflow(v: VmView)
    requires
        v.wf(),
        stacks_ok(v),
        v.s.len == 0,
        v.s.cells[32] == v.s.canary,
    ensures
        v.p_drop().check_stacks().error == Some(Exception::StackUnderflow),
{
}

/// A 33rd cell pushed on the data stack is caught as a stack overflow when
/// the stacks are checked.
pub proof fn law_push_past_32_is_overflow(v: VmView, x: isize)
    requires
        v.wf(),
        stacks_ok(v),
        v.s.len == 32,
    ensures
        v.with_s(v.s.push(x)).check_stacks().error == Some(Exception::StackOverflow),
{
}

/// Calling a colon definition and returning from it comes back to where
/// the call was made, with the return stack as it was.
pub proof fn law_nest_then_exit(v: VmView)
    requires
        v.wf(),
        stacks_ok(v),
        v.current_word_ok(),
        v.ip() <= isize::MAX,
    ensures
        v.nest().exit().ip() == v.ip(),
        v.nest().exit().r.len == v.r.len,
        v.nest().exit().s == v.s,
        v.nest().exit().error == v.error,
{
}

/// Asking for the time and completing the request with the clock reading
/// `t` pushes `t` as a double number, in nanoseconds for `ntime` and in
/// whole microseconds for `utime`, and leaves no request.
pub proof fn law_time_request_pushes_the_reading(v: VmView, t: u64)
    requires
        v.wf(),
    ensures
        v.ntime().complete_time(t).s == v.s.push(time_cells(t).0).push(time_cells(t).1),
        v.utime().complete_time(t).s == v.s.push(time_cells(t / 1000).0).push(
            time_cells(t / 1000).1,
        ),
        v.ntime().complete_time(t).request is None,
        v.utime().complete_time(t).request is None,
        v.ntime().complete_time(t).mem == v.mem,
{
}

/// Flushing output that is there and completing the request empties the
/// output and leaves no request; flushing no output asks for nothing.
pub proof fn law_flush_empties_the_output(v: VmView)
    requires
        v.wf(),
        v.request is None,
    ensures
        v.flush_output().complete_flush().output.len() == 0,
        v.flush_output().complete_flush().request is None,
        v.flush_to_err().complete_flush().output.len() == 0,
        v.flush_to_err().complete_flush().request is None,
        v.output.len() == 0 ==> v.flush_output() == v,
{
}

/// Asking the program for the work of one of its words and completing the
/// request leaves the machine as it was.
pub proof fn law_host_request_completes(v: VmView, n: u16)
    requires
        v.request is None,
    ensures
        v.host(n).complete_host() == v,
{
}

/// A measured execution time lies between the shortest and the longest
/// recorded for the word, which stay ordered.
pub proof fn law_execution_time_within_bounds(v: VmView, now: u64)
    requires
        0 <= v.s.peek(2) < v.words.len(),
        v.words[v.s.peek(2) as int].min_execution_time == 0 || v.words[v.s.peek(
            2,
        ) as int].min_execution_time <= v.words[v.s.peek(2) as int].max_execution_time,
    ensures
        ({
            let w = v.record_execution_time(now).words[v.s.peek(2) as int];
            let t = (now as usize).wrapping_sub(v.s.peek(1) as usize);
            &&& w.min_execution_time <= t <= w.max_execution_time
            &&& v.record_execution_time(now).error == v.error
        }),
{
}

/// No word below `n` but word 0 has a measured time left after `0xtime`,
/// so nothing is listed.
proof fn lemma_cleared_entries(v: VmView, n: int)
    requires
        n <= v.words.len(),
    ensures
        v.clear_xtime().xtime_entries(n) == Seq::<u8>::empty(),
    decreases n,
{
    if n > 1 {
        lemma_cleared_entries(v, n - 1);
        assert(v.clear_xtime().xtime_entry(n - 1) =~= Seq::<u8>::empty());
        assert(v.clear_xtime().xtime_entries(n) =~= Seq::<u8>::empty());
    }
}

/// After `0xtime`, `.xtime` displays nothing.
pub proof fn law_cleared_times_show_nothing(v: VmView)
    ensures
        v.clear_xtime().dot_xtime().output == v.output,
{
    lemma_cleared_entries(v, v.words.len() as int);
    assert(v.output + Seq::<u8>::empty() =~= v.output);
}

/// A floating-point number compiled at the data-space pointer, when
/// executed, asks for the number with the same bit pattern to be pushed and
/// steps past it.
pub proof fn law_compiled_float(v: VmView, bits: u64)
    requires
        v.wf(),
        crate::memory::aligned_to((v.here + 4) as int, 8) + 8 <= v.mem.len(),
    ensures
        ({
            let w = v.compile_float(bits);
            let x = w.with_ip((v.here + 4) as usize).flit();
            &&& x.request == Some(crate::vm::Request::PushFloat(bits))
            &&& x.ip() == w.here
            &&& x.error == v.error
        }),
{
    let p = crate::memory::aligned_to((v.here + 4) as int, 8);
    let w1 = v.comp(v.refs.idx_flit as u32);
    lemma_field_read_after_write(v.mem, v.here as int, v.refs.idx_flit as u32);
    crate::memory::lemma_cell_read_after_write(w1.mem, p, bits);
}

/// Storing a float at an address with `f!` and fetching from it with `f@`
/// gives back its bit pattern.
pub proof fn law_fstore_then_ffetch(v: VmView, a: isize, bits: u64)
    requires
        v.wf(),
        stacks_ok(v),
        v.float_addr(a) is Some,
    ensures
        ({
            let w = v.with_s(v.s.push(a)).fstore().complete_store_float(bits);
            let x = w.with_s(w.s.push(a)).ffetch();
            &&& x.request == Some(crate::vm::Request::PushFloat(bits))
            &&& x.error == v.error
        }),
{
    let p = v.float_addr(a)->0;
    crate::memory::lemma_cell_read_after_write(v.mem, p, bits);
    assert(v.with_s(v.s.push(a)).s.peek(1) == a);
}

/// A float constant, when executed, asks for the float it was made of.
pub proof fn law_fconstant_gives_its_float(v: VmView, bits: u64)
    requires
        v.wf(),
        v.request is None,
        v.words.len() < usize::MAX,
        v.fconstant().complete_fconstant(bits).error is None,
    ensures
        ({
            let w = v.fconstant().complete_fconstant(bits);
            let x = VmView { state: crate::kernel::State { word_pointer: w.last_definition, ..w.state }, ..w }.p_fconst();
            x.request == Some(crate::vm::Request::PushFloat(bits))
        }),
{
    let u = VmView { request: None, ..v.fconstant() };
    let d = u.define(Action::FConst, Compilation::Word);
    let pw = u.parse_word();
    law_words_keep_data_space(u, Action::ParseWord);
    assert(pw.words == u.words);
    assert(d.error is None);
    assert(d.words.len() == u.words.len() + 1);
    assert(d.last_definition == u.words.len());
    assert(d.words[d.last_definition as int].dfa == d.here);
    let p = crate::memory::aligned_to(d.here as int, 8);
    assert(p + 8 <= d.mem.len());
    crate::memory::lemma_cell_read_after_write(d.mem, p, bits);
}

/// What `:` leaves when it succeeds: a well-formed machine whose last
/// definition is the new word, the last of the word list, run by `nest`.
proof fn lemma_colon_makes_the_last_word(v: VmView)
    requires
        v.wf(),
        v.words.len() < usize::MAX,
        v.colon().error is None,
    ensures
        v.colon().wf(),
        v.colon().words.len() >= 1,
        v.colon().last_definition as int == v.colon().words.len() - 1,
        v.colon().words[v.colon().last_definition as int].action == Action::Nest,
{
    let d = v.define(Action::Nest, Compilation::Word);
    law_words_keep_data_space(v, Action::ParseWord);
    law_words_keep_data_space(v, Action::Colon);
    assert(d.error is None);
    assert(d.last_definition == v.words.len());
}

/// `recurse` inside a colon definition compiles a call of the word being
/// defined: the field it lays down names the definition `:` just made.
pub proof fn law_recurse_calls_the_definition(v: VmView)
    requires
        v.wf(),
        v.words.len() < usize::MAX,
        v.colon().error is None,
        v.colon().room(4),
    ensures
        ({
            let w = v.colon();
            let x = w.imm_recurse();
            &&& w.last_definition as int == w.words.len() - 1
            &&& w.words[w.last_definition as int].action == Action::Nest
            &&& crate::memory::field_value(x.mem, w.here as int) == w.last_definition as u32
            &&& x.here == w.here + 4
            &&& x.error is None
        }),
{
    lemma_colon_makes_the_last_word(v);
    let w = v.colon();
    assert(w.imm_recurse() == w.compile_word(w.last_definition));
    lemma_field_read_after_write(w.mem, w.here as int, w.last_definition as u32);
}

/// `-rot` ( x1 x2 x3 -- x3 x1 x2 ): the top cell becomes the second, the
/// second the third, and the third the top; the depth stays; and `rot`
/// afterwards leaves the stack as it was.
pub proof fn law_minus_rot_rotates_back(v: VmView)
    requires
        stacks_ok(v),
    ensures
        v.minus_rot().s.peek(1) == v.s.peek(2),
        v.minus_rot().s.peek(2) == v.s.peek(3),
        v.minus_rot().s.peek(3) == v.s.peek(1),
        v.minus_rot().s.len == v.s.len,
        v.minus_rot().rot().s == v.s,
{
    let l = v.s.len;
    let i1 = l.wrapping_sub(1) as int;
    let i2 = l.wrapping_sub(2) as int;
    let i3 = l.wrapping_sub(3) as int;
    assert(i1 != i2 && i2 != i3 && i1 != i3);
    assert(v.minus_rot().rot().s.cells =~= v.s.cells);
}

/// A byte stored with `c!` is fetched back by `c@` at the same address: the
/// low eight bits of the stored value.
pub proof fn law_c_store_then_c_fetch(v: VmView, c: isize, a: isize)
    requires
        v.wf(),
        stacks_ok(v),
        v.cell_addr_ok(a, 1),
    ensures
        ({
            let w = v.with_s(v.s.push(c).push(a)).c_store();
            let r = w.with_s(w.s.push(a)).c_fetch();
            &&& r.s.peek(1) == c & 255
            &&& r.s.len == v.s.len.wrapping_add(1)
            &&& r.error == v.error
        }),
{
    let s2 = v.s.push(c).push(a);
    assert(s2.peek(1) == a);
    assert(s2.peek(2) == c);
    assert((c as u8) as isize == c & 255) by (bit_vector);
}

/// `abs` leaves a number's magnitude: never negative, the number itself
/// when it is not negative, and its negation when it is; `isize::MIN`, which
/// has no positive counterpart, wraps to itself.
pub proof fn law_abs_is_the_magnitude(v: VmView)
    requires
        stacks_ok(v),
    ensures
        ({
            let n = v.s.peek(1);
            let r = v.abs().s.peek(1);
            &&& n != isize::MIN ==> r >= 0 && (r == n || r == -n)
            &&& n == isize::MIN ==> r == isize::MIN
            &&& n >= 0 ==> r == n
            &&& n < 0 ==> r == v.negate().s.peek(1)
            &&& v.abs().s.len == v.s.len
        }),
{
}

/// The digits of `n` in base `b` are digits of that base, at least one,
/// and read back as `n`.
pub proof fn lemma_digits_read_back(n: nat, b: nat)
    requires
        2 <= b <= 16,
    ensures
        crate::format::digits(n, b).len() > 0,
        crate::parser::all_digits_in_base(crate::format::digits(n, b), b as int),
        crate::parser::positional_value(crate::format::digits(n, b), b as int) == n,
        n > 0 ==> crate::format::digits(n, b)[0] != 48u8,
        n == 0 ==> crate::format::digits(n, b) == seq![48u8],
    decreases n,
{
    let d = crate::format::digits(n, b);
    if n < b {
        assert(d.drop_last() =~= Seq::<u8>::empty());
        assert(crate::parser::digit_value(crate::format::digit_char(n)) == n);
        assert(crate::parser::positional_value(d.drop_last(), b as int) == 0);
        assert(crate::parser::positional_value(d, b as int) == 0 * (b as int) + n);
    } else {
        vstd::arithmetic::div_mod::lemma_div_decreases(n as int, b as int);
        lemma_digits_read_back(n / b, b);
        let p = crate::format::digits(n / b, b);
        let c = crate::format::digit_char(n % b);
        assert(d == p.push(c));
        assert(d.drop_last() =~= p);
        assert(d[0] == p[0]);
        assert(crate::parser::digit_value(c) == n % b);
        assert forall|i: int| 0 <= i < d.len() implies #[trigger] crate::parser::is_digit_in_base(
            d[i],
            b as int,
        ) by {
            if i < p.len() {
                assert(d[i] == p[i]);
            }
        }
        assert(n == (n / b) * b + n % b) by (nonlinear_arith)
            requires
                b > 0,
        ;
        assert(crate::parser::positional_value(d, b as int) == crate::parser::positional_value(p, b as int)
            * (b as int) + crate::parser::digit_value(c));
    }
}

/// `.r` writes a number in the base that BASE holds, right-aligned: what it
/// appends is spaces, only as many as make it `n2` characters long, and
/// then the digits of that base with no leading zero. In base 10 a
/// negative number has a minus sign and its magnitude; in the other bases a
/// negative number is written as its bit pattern taken as unsigned. The
/// digits read back in that base give the number.
pub proof fn law_dot_r_reads_back_in_base(v: VmView)
    requires
        crate::tools::displayable_base(v.base_value()),
    ensures
        ({
            let out = v.dot_r().output;
            let e = out.skip(v.output.len() as int);
            let b = v.base_value();
            let n1 = v.s.peek(2);
            let n2 = v.s.peek(1);
            &&& out.take(v.output.len() as int) == v.output
            &&& exists|k: int|
                0 <= k < e.len() && (forall|i: int| 0 <= i < k ==> #[trigger] e[i] == 32u8) && (k
                    == 0 || e.len() == n2) && number_text_of(#[trigger] e.skip(k), n1, b)
        }),
{
    let n1 = v.s.peek(2);
    let n2 = v.s.peek(1);
    let b = v.base_value();
    let t = crate::format::radix_text(n1, b);
    if b == 10 && n1 < 0 {
        lemma_digits_read_back((-n1) as nat, 10);
        let m = crate::format::digits((-n1) as nat, 10);
        assert(t == seq![45u8] + m);
        assert(t.drop_first() =~= m);
    } else if b == 10 {
        lemma_digits_read_back(n1 as nat, 10);
    } else {
        lemma_digits_read_back((n1 as usize) as nat, b as nat);
    }
    let out = v.dot_r().output;
    let e = out.skip(v.output.len() as int);
    let pad = n2 - t.len();
    let k: int = if pad > 0 {
        pad
    } else {
        0
    };
    let ra = crate::format::right_aligned(t, n2);
    assert(out == v.output + ra);
    assert(out.take(v.output.len() as int) =~= v.output);
    assert(e =~= ra);
    assert(e.skip(k) =~= t);
    assert(number_text_of(e.skip(k), n1, b));
    assert forall|i: int| 0 <= i < k implies #[trigger] e[i] == 32u8 by {}
}

/// `t` is how `n` is written in base `b`: digits of base `b` with no
/// leading zero that read back as `n`, after a minus sign for a negative
/// `n` in base 10; in the other bases a negative `n` is read as its bit
/// pattern, unsigned.
pub open spec fn number_text_of(t: Seq<u8>, n: isize, b: isize) -> bool {
    let (digits, value) = if b == 10 && n < 0 {
        (t.drop_first(), -(n as int))
    } else if b == 10 {
        (t, n as int)
    } else {
        (t, (n as usize) as int)
    };
    &&& t.len() > 0
    &&& (b == 10 && n < 0 ==> t[0] == 45u8)
    &&& digits.len() > 0
    &&& crate::parser::all_digits_in_base(digits, b as int)
    &&& crate::parser::positional_value(digits, b as int) == value
    &&& (digits[0] == 48u8 ==> digits.len() == 1)
}

} // verus!
