//! The inner and outer interpreters: executing a word, running compiled
//! code, and evaluating the input.
//!
//! A word that executes another word (`execute`, the outer interpreter, an
//! abort that calls the handler) leaves it pending; `settle` runs what is
//! pending until nothing is. The handler runs once for a pending abort: an
//! abort inside the handler does not call it again.
//!
//! Every loop here runs for at most `usize::MAX` steps; the contracts state
//! the result of that many steps.

use vstd::prelude::*;

use crate::exception::Exception;
use crate::kernel::State;
use crate::vm::{Action, VmView, VM};

verus! {

/// The number of steps a loop of the interpreters may take.
pub open spec fn max_steps() -> nat {
    usize::MAX as nat
}

impl VmView {
    /// The effect of action `a`.
    pub open spec fn act(self, a: Action) -> VmView {
        match a {
            Action::Noop => self.noop(),
            Action::Exit => self.exit(),
            Action::Lit => self.lit(),
            Action::SQuoteRuntime => self.s_quote_runtime(),
            Action::Branch => self.branch(),
            Action::ZeroBranch => self.zero_branch(),
            Action::DoRuntime => self.do_runtime(),
            Action::QDoRuntime => self.qdo_runtime(),
            Action::LoopRuntime => self.loop_runtime(),
            Action::PlusLoopRuntime => self.plus_loop_runtime(),
            Action::Unloop => self.unloop(),
            Action::Leave => self.leave(),
            Action::I => self.p_i(),
            Action::J => self.p_j(),
            Action::ToR => self.p_to_r(),
            Action::RFrom => self.r_from(),
            Action::RFetch => self.r_fetch(),
            Action::TwoToR => self.two_to_r(),
            Action::TwoRFrom => self.two_r_from(),
            Action::TwoRFetch => self.two_r_fetch(),
            Action::Execute => self.execute(),
            Action::Dup => self.dup(),
            Action::Drop => self.p_drop(),
            Action::Swap => self.swap(),
            Action::Over => self.over(),
            Action::Nip => self.nip(),
            Action::Depth => self.depth(),
            Action::CheckStacks => self.check_stacks(),
            Action::ZeroLess => self.zero_less(),
            Action::Equals => self.equals(),
            Action::LessThan => self.less_than(),
            Action::Invert => self.invert(),
            Action::And => self.and(),
            Action::Or => self.or(),
            Action::Xor => self.xor(),
            Action::Lshift => self.lshift(),
            Action::Rshift => self.rshift(),
            Action::OnePlus => self.one_plus(),
            Action::OneMinus => self.one_minus(),
            Action::Minus => self.minus(),
            Action::Plus => self.plus(),
            Action::Star => self.star(),
            Action::SlashMod => self.slash_mod(),
            Action::CellPlus => self.cell_plus(),
            Action::Cells => self.cells(),
            Action::Fetch => self.fetch(),
            Action::Store => self.store(),
            Action::CharPlus => self.char_plus(),
            Action::Chars => self.chars(),
            Action::Here => self.here(),
            Action::Allot => self.allot(),
            Action::CFetch => self.c_fetch(),
            Action::CStore => self.c_store(),
            Action::Base => self.base(),
            Action::Paren => self.imm_paren(),
            Action::Backslash => self.imm_backslash(),
            Action::LeftBracket => self.left_bracket(),
            Action::BracketChar => self.bracket_char(),
            Action::Semicolon => self.semicolon(),
            Action::If => self.imm_if(),
            Action::Else => self.imm_else(),
            Action::Then => self.imm_then(),
            Action::Case => self.imm_case(),
            Action::Of => self.imm_of(),
            Action::Endof => self.imm_endof(),
            Action::Endcase => self.imm_endcase(),
            Action::Begin => self.imm_begin(),
            Action::While => self.imm_while(),
            Action::Repeat => self.imm_repeat(),
            Action::Again => self.imm_again(),
            Action::Recurse => self.imm_recurse(),
            Action::Do => self.imm_do_with(self.refs.idx_do),
            Action::QDo => self.imm_do_with(self.refs.idx_qdo),
            Action::Loop => self.imm_loop_with(self.refs.idx_loop),
            Action::PlusLoop => self.imm_loop_with(self.refs.idx_plus_loop),
            Action::True => self.p_true(),
            Action::False => self.p_false(),
            Action::ZeroEquals => self.zero_equals(),
            Action::ZeroGreater => self.zero_greater(),
            Action::ZeroNotEquals => self.zero_not_equals(),
            Action::GreaterThan => self.greater_than(),
            Action::NotEquals => self.not_equals(),
            Action::Within => self.within(),
            Action::Rot => self.rot(),
            Action::MinusRot => self.minus_rot(),
            Action::TwoDup => self.two_dup(),
            Action::TwoDrop => self.two_drop(),
            Action::TwoSwap => self.two_swap(),
            Action::TwoOver => self.two_over(),
            Action::Slash => self.slash(),
            Action::Mod => self.p_mod(),
            Action::Abs => self.abs(),
            Action::Negate => self.negate(),
            Action::ParseWord => self.parse_word(),
            Action::Char => self.char(),
            Action::Parse => self.parse(),
            Action::Colon => self.colon(),
            Action::Constant => self.constant(),
            Action::Variable => self.variable(),
            Action::Create => self.create(),
            Action::Tick => self.tick(),
            Action::RightBracket => self.right_bracket(),
            Action::Comma => self.comma(),
            Action::Marker => self.marker(),
            Action::HandlerStore => self.handler_store(),
            Action::ErrorQ => self.p_error_q(),
            Action::HandleError => self.p_handle_error(),
            Action::Reset => self.reset(),
            Action::Abort => self.abort(),
            Action::Compiling => self.p_compiling(),
            Action::TokenEmpty => self.p_token_empty(),
            Action::CompileToken => self.compile_token(),
            Action::InterpretToken => self.interpret_token(),
            Action::Nest => self.nest(),
            Action::Var => self.p_var(),
            Action::Const => self.p_const(),
            Action::Unmark => self.unmark(),
            Action::Emit => self.emit(),
            Action::Type => self.p_type(),
            Action::SQuote => self.s_quote(),
            Action::DotQuote => self.dot_quote(),
            Action::DotParen => self.dot_paren(),
            Action::MaxN => self.max_n(),
            Action::MaxU => self.max_u(),
            Action::DotR => self.dot_r(),
            Action::DotS => self.dot_s(),
            Action::Words => self.words(),
            Action::DotMemory => self.dot_memory(),
            Action::DotInput => self.dot_input(),
            Action::Ntime => self.ntime(),
            Action::Utime => self.utime(),
            Action::FlushOutput => self.flush_output(),
            Action::FlushToErr => self.flush_to_err(),
            Action::Bye => self.bye(),
            Action::Host(n) => self.host(n),
            Action::SetExecutionTimes => self.set_execution_times(),
            Action::DotXtime => self.dot_xtime(),
            Action::ClearXtime => self.clear_xtime(),
            Action::Flit => self.flit(),
            Action::FloatPlus => self.float_plus(),
            Action::Floats => self.floats(),
            Action::FAligned => self.faligned(),
            Action::FAlign => self.falign(),
            Action::FFetch => self.ffetch(),
            Action::FStore => self.fstore(),
            Action::FConstant => self.fconstant(),
            Action::FConst => self.p_fconst(),
        }
    }

    /// Perform the action of word `i`, which becomes the word being
    /// executed; an index outside the word list aborts with
    /// `UndefinedWord`.
    pub open spec fn dispatch(self, i: usize) -> VmView {
        let v = VmView { state: State { word_pointer: i, ..self.state }, ..self };
        if i < v.words.len() {
            v.act(v.words[i as int].action)
        } else {
            v.abort_with(Exception::UndefinedWord)
        }
    }

    /// Run the pending word, or the handler after an abort, until nothing
    /// is pending or `fuel` steps are spent.
    pub open spec fn settle(self, fuel: nat) -> VmView
        decreases fuel,
    {
        if fuel == 0 {
            self
        } else {
            match self.pending_xt {
                Some(x) => VmView { pending_xt: None, ..self }.dispatch(x).settle((fuel - 1) as nat),
                None => if self.pending_handler {
                    let w = VmView { pending_handler: false, ..self }.dispatch(self.handler);
                    VmView { pending_handler: false, ..w }.settle((fuel - 1) as nat)
                } else {
                    self
                },
            }
        }
    }

    /// Execute word `i` and whatever it leaves pending.
    pub open spec fn execute_word(self, i: usize) -> VmView {
        self.dispatch(i).settle(max_steps())
    }

    /// The inner interpreter is inside compiled code, and no request waits
    /// for the world outside.
    pub open spec fn running(self) -> bool {
        0 < self.ip() && self.ip() < self.here && self.request is None
    }

    /// One step of the inner interpreter: execute the word whose index is
    /// at the instruction pointer. An index that does not fit in data space
    /// stops the interpreter with `InvalidMemoryAddress`.
    pub open spec fn step(self) -> VmView {
        if self.operand_ok() {
            self.skip_operand().execute_word(self.operand() as usize)
        } else {
            self.with_ip(0).abort_with(Exception::InvalidMemoryAddress).settle(max_steps())
        }
    }

    /// The inner interpreter for at most `fuel` steps.
    pub open spec fn run_for(self, fuel: nat) -> VmView
        decreases fuel,
    {
        if fuel == 0 || !self.running() {
            self
        } else {
            self.step().run_for((fuel - 1) as nat)
        }
    }

    /// The inner interpreter: run compiled code from the instruction
    /// pointer while it lies inside it.
    pub open spec fn run(self) -> VmView {
        self.run_for(max_steps())
    }

    /// Interpret or compile the token, then settle what is pending.
    pub open spec fn do_token(self) -> VmView {
        if self.state.is_compiling {
            self.compile_token().settle(max_steps())
        } else {
            self.interpret_token().settle(max_steps())
        }
    }

    /// The outer interpreter for at most `fuel` tokens: each token is
    /// interpreted or compiled, the compiled code it starts is run, and the
    /// stacks are checked; the first error stops it.
    pub open spec fn evaluate_for(self, fuel: nat) -> VmView
        decreases fuel,
    {
        if fuel == 0 {
            self
        } else {
            let v = self.parse_word();
            if v.token.len() == 0 {
                v
            } else {
                let w = v.do_token();
                if w.error is Some || w.request is Some {
                    w
                } else {
                    let r = w.run();
                    if r.request is Some {
                        r
                    } else {
                        let x = r.check_stacks().settle(max_steps());
                        if x.error is Some || x.request is Some {
                            x
                        } else {
                            x.evaluate_for((fuel - 1) as nat)
                        }
                    }
                }
            }
        }
    }

    /// The outer interpreter: evaluate the input.
    pub open spec fn evaluate(self) -> VmView {
        self.evaluate_for(max_steps())
    }

    /// Go on where a request stopped the interpreters: finish the compiled
    /// code, check the stacks, and evaluate the rest of the input.
    pub open spec fn resume(self) -> VmView {
        let r = self.run();
        if r.request is Some {
            r
        } else {
            let x = r.check_stacks().settle(max_steps());
            if x.error is Some || x.request is Some {
                x
            } else {
                x.evaluate()
            }
        }
    }
}

impl VM {
    /// Perform the action `a`.
    #[verifier::rlimit(40)]
    pub fn act(&mut self, a: Action)
        requires
            old(self).wf(),
        ensures
            final(self).wf(),
            final(self)@ == old(self)@.act(a),
    {
        match a {
            Action::Noop => self.noop(),
            Action::Exit => self.exit(),
            Action::Lit => self.lit(),
            Action::SQuoteRuntime => self.s_quote_runtime(),
            Action::Branch => self.branch(),
            Action::ZeroBranch => self.zero_branch(),
            Action::DoRuntime => self.do_runtime(),
            Action::QDoRuntime => self.qdo_runtime(),
            Action::LoopRuntime => self.loop_runtime(),
            Action::PlusLoopRuntime => self.plus_loop_runtime(),
            Action::Unloop => self.unloop(),
            Action::Leave => self.leave(),
            Action::I => self.p_i(),
            Action::J => self.p_j(),
            Action::ToR => self.p_to_r(),
            Action::RFrom => self.r_from(),
            Action::RFetch => self.r_fetch(),
            Action::TwoToR => self.two_to_r(),
            Action::TwoRFrom => self.two_r_from(),
            Action::TwoRFetch => self.two_r_fetch(),
            Action::Execute => self.execute_next(),
            Action::Dup => self.dup(),
            Action::Drop => self.p_drop(),
            Action::Swap => self.swap(),
            Action::Over => self.over(),
            Action::Nip => self.nip(),
            Action::Depth => self.depth(),
            Action::CheckStacks => self.check_stacks(),
            Action::ZeroLess => self.zero_less(),
            Action::Equals => self.equals(),
            Action::LessThan => self.less_than(),
            Action::Invert => self.invert(),
            Action::And => self.and(),
            Action::Or => self.or(),
            Action::Xor => self.xor(),
            Action::Lshift => self.lshift(),
            Action::Rshift => self.rshift(),
            Action::OnePlus => self.one_plus(),
            Action::OneMinus => self.one_minus(),
            Action::Minus => self.minus(),
            Action::Plus => self.plus(),
            Action::Star => self.star(),
            Action::SlashMod => self.slash_mod(),
            Action::CellPlus => self.cell_plus(),
            Action::Cells => self.cells(),
            Action::Fetch => self.fetch(),
            Action::Store => self.store(),
            Action::CharPlus => self.char_plus(),
            Action::Chars => self.chars(),
            Action::Here => self.here(),
            Action::Allot => self.allot(),
            Action::CFetch => self.c_fetch(),
            Action::CStore => self.c_store(),
            Action::Base => self.base(),
            Action::Paren => self.imm_paren(),
            Action::Backslash => self.imm_backslash(),
            Action::LeftBracket => self.left_bracket(),
            Action::BracketChar => self.bracket_char(),
            Action::Semicolon => self.semicolon(),
            Action::If => self.imm_if(),
            Action::Else => self.imm_else(),
            Action::Then => self.imm_then(),
            Action::Case => self.imm_case(),
            Action::Of => self.imm_of(),
            Action::Endof => self.imm_endof(),
            Action::Endcase => self.imm_endcase(),
            Action::Begin => self.imm_begin(),
            Action::While => self.imm_while(),
            Action::Repeat => self.imm_repeat(),
            Action::Again => self.imm_again(),
            Action::Recurse => self.imm_recurse(),
            Action::Do => self.imm_do(),
            Action::QDo => self.imm_qdo(),
            Action::Loop => self.imm_loop(),
            Action::PlusLoop => self.imm_plus_loop(),
            Action::True => self.p_true(),
            Action::False => self.p_false(),
            Action::ZeroEquals => self.zero_equals(),
            Action::ZeroGreater => self.zero_greater(),
            Action::ZeroNotEquals => self.zero_not_equals(),
            Action::GreaterThan => self.greater_than(),
            Action::NotEquals => self.not_equals(),
            Action::Within => self.within(),
            Action::Rot => self.rot(),
            Action::MinusRot => self.minus_rot(),
            Action::TwoDup => self.two_dup(),
            Action::TwoDrop => self.two_drop(),
            Action::TwoSwap => self.two_swap(),
            Action::TwoOver => self.two_over(),
            Action::Slash => self.slash(),
            Action::Mod => self.p_mod(),
            Action::Abs => self.abs(),
            Action::Negate => self.negate(),
            Action::ParseWord => self.parse_word(),
            Action::Char => self.char(),
            Action::Parse => self.parse(),
            Action::Colon => self.colon(),
            Action::Constant => self.constant(),
            Action::Variable => self.variable(),
            Action::Create => self.create(),
            Action::Tick => self.tick(),
            Action::RightBracket => self.right_bracket(),
            Action::Comma => self.comma(),
            Action::Marker => self.marker(),
            Action::HandlerStore => self.handler_store(),
            Action::ErrorQ => self.p_error_q(),
            Action::HandleError => self.p_handle_error(),
            Action::Reset => self.reset(),
            Action::Abort => self.abort(),
            Action::Compiling => self.p_compiling(),
            Action::TokenEmpty => self.p_token_empty(),
            Action::CompileToken => self.compile_token_next(),
            Action::InterpretToken => self.interpret_token_next(),
            Action::Nest => self.nest(),
            Action::Var => self.p_var(),
            Action::Const => self.p_const(),
            Action::Unmark => self.unmark(),
            Action::Emit => self.emit(),
            Action::Type => self.p_type(),
            Action::SQuote => self.s_quote(),
            Action::DotQuote => self.dot_quote(),
            Action::DotParen => self.dot_paren(),
            Action::MaxN => self.max_n(),
            Action::MaxU => self.max_u(),
            Action::DotR => self.dot_r(),
            Action::DotS => self.dot_s(),
            Action::Words => self.words(),
            Action::DotMemory => self.dot_memory(),
            Action::DotInput => self.dot_input(),
            Action::Ntime => self.ntime(),
            Action::Utime => self.utime(),
            Action::FlushOutput => self.flush_output(),
            Action::FlushToErr => self.flush_to_err(),
            Action::Bye => self.bye(),
            Action::Host(n) => self.host(n),
            Action::SetExecutionTimes => self.set_execution_times(),
            Action::DotXtime => self.dot_xtime(),
            Action::ClearXtime => self.clear_xtime(),
            Action::Flit => self.flit(),
            Action::FloatPlus => self.float_plus(),
            Action::Floats => self.floats(),
            Action::FAligned => self.faligned(),
            Action::FAlign => self.falign(),
            Action::FFetch => self.ffetch(),
            Action::FStore => self.fstore(),
            Action::FConstant => self.fconstant(),
            Action::FConst => self.p_fconst(),
        }
    }

    /// Perform the action of word `i`.
    pub fn dispatch(&mut self, i: usize)
        requires
            old(self).wf(),
        ensures
            final(self).wf(),
            final(self)@ == old(self)@.dispatch(i),
    {
        self.state.word_pointer = i;
        if i < self.wordlist.len() {
            let a = self.wordlist[i].action;
            self.act(a);
        } else {
            self.abort_with(Exception::UndefinedWord);
        }
    }

    /// Run what is pending until nothing is.
    pub fn settle(&mut self)
        requires
            old(self).wf(),
        ensures
            final(self).wf(),
            final(self)@ == old(self)@.settle(max_steps()),
    {
        let ghost target = self@.settle(max_steps());
        let mut fuel: usize = usize::MAX;
        loop
            invariant_except_break
                self.wf(),
                self@.settle(fuel as nat) == target,
            ensures
                self.wf(),
                self@ == target,
            decreases fuel,
        {
            if fuel == 0 {
                break;
            }
            match self.pending_xt {
                Some(x) => {
                    self.pending_xt = None;
                    self.dispatch(x);
                },
                None => {
                    if self.pending_handler {
                        self.pending_handler = false;
                        let h = self.handler;
                        self.dispatch(h);
                        self.pending_handler = false;
                    } else {
                        break;
                    }
                },
            }
            fuel = fuel - 1;
        }
    }

    /// ( xt -- ) Execute the word `xt`, and whatever it leaves pending.
    pub fn execute(&mut self)
        requires
            old(self).wf(),
        ensures
            final(self).wf(),
            final(self)@ == old(self)@.execute().settle(max_steps()),
    {
        self.execute_next();
        self.settle();
    }

    /// Interpret the token: execute the word it names, or evaluate it as a
    /// number.
    pub fn interpret_token(&mut self)
        requires
            old(self).wf(),
        ensures
            final(self).wf(),
            final(self)@ == old(self)@.interpret_token().settle(max_steps()),
    {
        self.interpret_token_next();
        self.settle();
    }

    /// Compile the token: compile the word it names or execute it if it
    /// is immediate, or compile it as a number.
    pub fn compile_token(&mut self)
        requires
            old(self).wf(),
        ensures
            final(self).wf(),
            final(self)@ == old(self)@.compile_token().settle(max_steps()),
    {
        self.compile_token_next();
        self.settle();
    }

    /// Execute word `i` and whatever it leaves pending.
    pub fn execute_word(&mut self, i: usize)
        requires
            old(self).wf(),
        ensures
            final(self).wf(),
            final(self)@ == old(self)@.execute_word(i),
    {
        self.dispatch(i);
        self.settle();
    }

    /// One step of the inner interpreter.
    fn step(&mut self)
        requires
            old(self).wf(),
        ensures
            final(self).wf(),
            final(self)@ == old(self)@.step(),
    {
        let ip = self.state.instruction_pointer;
        let cap = self.data_space.capacity();
        if ip <= cap && 4 <= cap - ip {
            let w = self.data_space.get_i32(ip);
            self.state.instruction_pointer = ip + 4;
            self.execute_word(w as usize);
        } else {
            self.state.instruction_pointer = 0;
            self.abort_with(Exception::InvalidMemoryAddress);
            self.settle();
        }
    }

    /// The inner interpreter: run compiled code from the instruction
    /// pointer while it lies inside it.
    pub fn run(&mut self)
        requires
            old(self).wf(),
        ensures
            final(self).wf(),
            final(self)@ == old(self)@.run(),
    {
        let ghost target = self@.run();
        let mut fuel: usize = usize::MAX;
        loop
            invariant_except_break
                self.wf(),
                self@.run_for(fuel as nat) == target,
            ensures
                self.wf(),
                self@ == target,
            decreases fuel,
        {
            let ip = self.state.instruction_pointer;
            if fuel == 0 || !(0 < ip && ip < self.data_space.here()) || self.request.is_some() {
                break;
            }
            self.step();
            fuel = fuel - 1;
        }
    }

    /// Interpret or compile the token, then settle what is pending.
    fn do_token(&mut self)
        requires
            old(self).wf(),
        ensures
            final(self).wf(),
            final(self)@ == old(self)@.do_token(),
    {
        if self.state.is_compiling {
            self.compile_token_next();
        } else {
            self.interpret_token_next();
        }
        self.settle();
    }

    /// The outer interpreter: evaluate the input.
    pub fn evaluate(&mut self)
        requires
            old(self).wf(),
        ensures
            final(self).wf(),
            final(self)@ == old(self)@.evaluate(),
    {
        let ghost target = self@.evaluate();
        let mut fuel: usize = usize::MAX;
        loop
            invariant_except_break
                self.wf(),
                self@.evaluate_for(fuel as nat) == target,
            ensures
                self.wf(),
                self@ == target,
            decreases fuel,
        {
            if fuel == 0 {
                break;
            }
            self.parse_word();
            if self.tkn.len() == 0 {
                break;
            }
            self.do_token();
            if self.last_error.is_some() || self.request.is_some() {
                break;
            }
            self.run();
            if self.request.is_some() {
                break;
            }
            self.check_stacks();
            self.settle();
            if self.last_error.is_some() || self.request.is_some() {
                break;
            }
            fuel = fuel - 1;
        }
    }

    /// Go on where a request stopped the interpreters, once the request is
    /// complete: finish the compiled code, check the stacks, and evaluate
    /// the rest of the input.
    pub fn resume(&mut self)
        requires
            old(self).wf(),
        ensures
            final(self).wf(),
            final(self)@ == old(self)@.resume(),
    {
        self.run();
        if self.request.is_some() {
            return;
        }
        self.check_stacks();
        self.settle();
        if self.last_error.is_some() || self.request.is_some() {
            return;
        }
        self.evaluate();
    }
}

} // verus!
