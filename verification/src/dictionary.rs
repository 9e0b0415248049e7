//! The word list of a new machine: the core words, the output words and
//! the environment queries, and the references the compiler keeps to some
//! of them.

use vstd::prelude::*;
use vstd::string::StringSliceAdditionalSpecFns;

use crate::codespace::{CodeSpace, PAGE_SIZE};
use crate::kernel::{Control, ForwardReferences, Stack, State};
use crate::memory::{DataSpace, SYSTEM_VARIABLES_SIZE};
use crate::vm::{Action, Compilation, VmView, Word, STACK_CANARY, VM};

verus! {

/// No reference resolved yet.
pub open spec fn no_references() -> ForwardReferences {
    ForwardReferences {
        idx_lit: 0,
        idx_flit: 0,
        idx_exit: 0,
        idx_zero_branch: 0,
        idx_branch: 0,
        idx_do: 0,
        idx_qdo: 0,
        idx_loop: 0,
        idx_plus_loop: 0,
        idx_s_quote: 0,
        idx_type: 0,
        idx_over: 0,
        idx_equal: 0,
        idx_drop: 0,
    }
}

impl VmView {
    /// The dictionary with the run-time words of compiled code added.
    #[verifier::opaque]
    pub open spec fn core_bytecodes(self) -> VmView {
        self
            .prim("noop", Action::Noop)
            .compile_only("exit", Action::Exit)
            .compile_only("lit", Action::Lit)
            .compile_only("flit", Action::Flit)
            .compile_only("_s\"", Action::SQuoteRuntime)
            .compile_only("branch", Action::Branch)
            .compile_only("0branch", Action::ZeroBranch)
            .compile_only("_do", Action::DoRuntime)
            .compile_only("_qdo", Action::QDoRuntime)
            .compile_only("_loop", Action::LoopRuntime)
            .compile_only("_+loop", Action::PlusLoopRuntime)
            .compile_only("unloop", Action::Unloop)
            .compile_only("leave", Action::Leave)
            .compile_only("i", Action::I)
            .compile_only("j", Action::J)
            .compile_only(">r", Action::ToR)
            .compile_only("r>", Action::RFrom)
            .compile_only("r@", Action::RFetch)
            .compile_only("2>r", Action::TwoToR)
            .compile_only("2r>", Action::TwoRFrom)
            .compile_only("2r@", Action::TwoRFetch)
    }

    /// The dictionary with stack, comparison and logic primitives added.
    #[verifier::opaque]
    pub open spec fn core_stack(self) -> VmView {
        self
            .prim("execute", Action::Execute)
            .prim("dup", Action::Dup)
            .prim("drop", Action::Drop)
            .prim("swap", Action::Swap)
            .prim("over", Action::Over)
            .prim("nip", Action::Nip)
            .prim("depth", Action::Depth)
            .prim("?stacks", Action::CheckStacks)
            .prim("0<", Action::ZeroLess)
            .prim("=", Action::Equals)
            .prim("<", Action::LessThan)
            .prim("invert", Action::Invert)
            .prim("and", Action::And)
            .prim("or", Action::Or)
            .prim("xor", Action::Xor)
            .prim("lshift", Action::Lshift)
            .prim("rshift", Action::Rshift)
    }

    /// The dictionary with arithmetic and data-space primitives added.
    #[verifier::opaque]
    pub open spec fn core_memory(self) -> VmView {
        self
            .prim("1+", Action::OnePlus)
            .prim("1-", Action::OneMinus)
            .prim("-", Action::Minus)
            .prim("+", Action::Plus)
            .prim("*", Action::Star)
            .prim("/mod", Action::SlashMod)
            .prim("cell+", Action::CellPlus)
            .prim("cells", Action::Cells)
            .prim("@", Action::Fetch)
            .prim("!", Action::Store)
            .prim("char+", Action::CharPlus)
            .prim("chars", Action::Chars)
            .prim("here", Action::Here)
            .prim("allot", Action::Allot)
            .prim("c@", Action::CFetch)
            .prim("c!", Action::CStore)
            .prim("base", Action::Base)
    }

    /// The dictionary with the immediate words of the compiler added.
    #[verifier::opaque]
    pub open spec fn core_immediate(self) -> VmView {
        self
            .immediate("(", Action::Paren)
            .immediate("\\", Action::Backslash)
            .immediate("[", Action::LeftBracket)
            .immediate_compile_only("[char]", Action::BracketChar)
            .immediate_compile_only(";", Action::Semicolon)
            .immediate_compile_only("if", Action::If)
            .immediate_compile_only("else", Action::Else)
            .immediate_compile_only("then", Action::Then)
            .immediate_compile_only("case", Action::Case)
            .immediate_compile_only("of", Action::Of)
            .immediate_compile_only("endof", Action::Endof)
            .immediate_compile_only("endcase", Action::Endcase)
            .immediate_compile_only("begin", Action::Begin)
            .immediate_compile_only("while", Action::While)
            .immediate_compile_only("repeat", Action::Repeat)
            .immediate_compile_only("again", Action::Again)
            .immediate_compile_only("recurse", Action::Recurse)
            .immediate_compile_only("do", Action::Do)
            .immediate_compile_only("?do", Action::QDo)
            .immediate_compile_only("loop", Action::Loop)
            .immediate_compile_only("+loop", Action::PlusLoop)
    }

    /// The dictionary with more stack and arithmetic primitives added.
    #[verifier::opaque]
    pub open spec fn core_more(self) -> VmView {
        self
            .prim("true", Action::True)
            .prim("false", Action::False)
            .prim("not", Action::ZeroEquals)
            .prim("0=", Action::ZeroEquals)
            .prim("0>", Action::ZeroGreater)
            .prim("0<>", Action::ZeroNotEquals)
            .prim(">", Action::GreaterThan)
            .prim("<>", Action::NotEquals)
            .prim("within", Action::Within)
            .prim("rot", Action::Rot)
            .prim("-rot", Action::MinusRot)
            .prim("2dup", Action::TwoDup)
            .prim("2drop", Action::TwoDrop)
            .prim("2swap", Action::TwoSwap)
            .prim("2over", Action::TwoOver)
            .prim("/", Action::Slash)
            .prim("mod", Action::Mod)
            .prim("abs", Action::Abs)
            .prim("negate", Action::Negate)
    }

    /// The dictionary with the defining words and the outer interpreter added.
    #[verifier::opaque]
    pub open spec fn core_outer(self) -> VmView {
        self
            .prim("parse-word", Action::ParseWord)
            .prim("char", Action::Char)
            .prim("parse", Action::Parse)
            .prim(":", Action::Colon)
            .prim("constant", Action::Constant)
            .prim("variable", Action::Variable)
            .prim("create", Action::Create)
            .prim("'", Action::Tick)
            .prim("]", Action::RightBracket)
            .prim(",", Action::Comma)
            .prim("marker", Action::Marker)
            .prim("handler!", Action::HandlerStore)
            .prim("error?", Action::ErrorQ)
            .prim("handle-error", Action::HandleError)
            .prim("reset", Action::Reset)
            .prim("abort", Action::Abort)
            .prim("compiling?", Action::Compiling)
            .prim("token-empty?", Action::TokenEmpty)
            .prim("compile-token", Action::CompileToken)
            .prim("interpret-token", Action::InterpretToken)
    }

    /// The dictionary with the output words added.
    #[verifier::opaque]
    pub open spec fn output_words(self) -> VmView {
        self
            .prim("emit", Action::Emit)
            .prim("type", Action::Type)
            .immediate_compile_only("s\"", Action::SQuote)
            .immediate_compile_only(".\"", Action::DotQuote)
            .immediate(".(", Action::DotParen)
            .prim(".r", Action::DotR)
            .prim("flush-output", Action::FlushOutput)
    }

    /// The dictionary with the programming tools added.
    #[verifier::opaque]
    pub open spec fn tools_words(self) -> VmView {
        self
            .prim("words", Action::Words)
            .prim(".s", Action::DotS)
            .prim(".memory", Action::DotMemory)
            .prim("(xtime)", Action::SetExecutionTimes)
            .prim(".xtime", Action::DotXtime)
            .prim("0xtime", Action::ClearXtime)
            .prim(".input", Action::DotInput)
            .prim("flush-to-err", Action::FlushToErr)
    }

    /// The dictionary with the environment queries added.
    #[verifier::opaque]
    pub open spec fn environment_words(self) -> VmView {
        self
            .prim("max-n", Action::MaxN)
            .prim("max-u", Action::MaxU)
    }

    /// The dictionary with the clock words added.
    #[verifier::opaque]
    pub open spec fn facility_words(self) -> VmView {
        self
            .prim("ntime", Action::Ntime)
            .prim("utime", Action::Utime)
    }

    /// The core words, with the references to the words the compiler lays
    /// down resolved to their places in the word list.
    pub open spec fn with_core(self) -> VmView {
        let base = self.words.len();
        let v = self.core_bytecodes().core_stack().core_memory().core_immediate().core_more().core_outer();
        VmView {
            refs: ForwardReferences {
                idx_exit: (base + 1) as usize,
                idx_lit: (base + 2) as usize,
                idx_flit: (base + 3) as usize,
                idx_s_quote: (base + 4) as usize,
                idx_branch: (base + 5) as usize,
                idx_zero_branch: (base + 6) as usize,
                idx_do: (base + 7) as usize,
                idx_qdo: (base + 8) as usize,
                idx_loop: (base + 9) as usize,
                idx_plus_loop: (base + 10) as usize,
                idx_drop: (base + 23) as usize,
                idx_over: (base + 25) as usize,
                idx_equal: (base + 30) as usize,
                ..v.refs
            },
            ..v
        }
    }

    /// The output words, with the reference to `type` resolved.
    pub open spec fn with_output(self) -> VmView {
        let base = self.words.len();
        let v = self.output_words();
        VmView { refs: ForwardReferences { idx_type: (base + 1) as usize, ..v.refs }, ..v }
    }

    /// `leave` compiled by its own semantics, which checks that it stands
    /// inside a loop.
    pub open spec fn patch_compilation_semanticses(self) -> VmView {
        match self.find("leave".spec_bytes()) {
            Some(i) => VmView {
                words: self.words.update(
                    i as int,
                    Word { compilation_semantics: Compilation::Leave, ..self.words[i as int] },
                ),
                ..self
            },
            None => self,
        }
    }

    /// The full word list of a new machine.
    pub open spec fn dictionary(self) -> VmView {
        self.with_core().with_output().tools_words().environment_words().facility_words()
            .patch_compilation_semanticses()
    }

    /// The machine with its word list, symbols and references emptied.
    pub open spec fn without_words(self) -> VmView {
        VmView {
            words: Seq::empty(),
            symbols: Seq::empty(),
            last_definition: 0,
            refs: no_references(),
            ..self
        }
    }
}

impl VM {
    /// Add the run-time words of compiled code.
    #[verifier::rlimit(30)]
    pub fn core_bytecodes(&mut self)
        requires
            old(self).wf(),
        ensures
            final(self).wf(),
            final(self)@ == old(self)@.core_bytecodes(),
            final(self).wordlist@.len() == old(self).wordlist@.len() + 21,
            final(self)@.same_machine(old(self)@),
            old(self)@.here == SYSTEM_VARIABLES_SIZE ==> final(self)@.here == SYSTEM_VARIABLES_SIZE,
            old(self)@.code_here == 0 ==> final(self)@.code_here == 0,
    {
        reveal(VmView::core_bytecodes);
        self.add_primitive("noop", Action::Noop);
        self.add_compile_only("exit", Action::Exit);
        self.add_compile_only("lit", Action::Lit);
        self.add_compile_only("flit", Action::Flit);
        self.add_compile_only("_s\"", Action::SQuoteRuntime);
        self.add_compile_only("branch", Action::Branch);
        self.add_compile_only("0branch", Action::ZeroBranch);
        self.add_compile_only("_do", Action::DoRuntime);
        self.add_compile_only("_qdo", Action::QDoRuntime);
        self.add_compile_only("_loop", Action::LoopRuntime);
        self.add_compile_only("_+loop", Action::PlusLoopRuntime);
        self.add_compile_only("unloop", Action::Unloop);
        self.add_compile_only("leave", Action::Leave);
        self.add_compile_only("i", Action::I);
        self.add_compile_only("j", Action::J);
        self.add_compile_only(">r", Action::ToR);
        self.add_compile_only("r>", Action::RFrom);
        self.add_compile_only("r@", Action::RFetch);
        self.add_compile_only("2>r", Action::TwoToR);
        self.add_compile_only("2r>", Action::TwoRFrom);
        self.add_compile_only("2r@", Action::TwoRFetch);
    }

    /// Add stack, comparison and logic primitives.
    #[verifier::rlimit(30)]
    pub fn core_stack(&mut self)
        requires
            old(self).wf(),
        ensures
            final(self).wf(),
            final(self)@ == old(self)@.core_stack(),
            final(self).wordlist@.len() == old(self).wordlist@.len() + 17,
            final(self)@.same_machine(old(self)@),
            old(self)@.here == SYSTEM_VARIABLES_SIZE ==> final(self)@.here == SYSTEM_VARIABLES_SIZE,
            old(self)@.code_here == 0 ==> final(self)@.code_here == 0,
    {
        reveal(VmView::core_stack);
        self.add_primitive("execute", Action::Execute);
        self.add_primitive("dup", Action::Dup);
        self.add_primitive("drop", Action::Drop);
        self.add_primitive("swap", Action::Swap);
        self.add_primitive("over", Action::Over);
        self.add_primitive("nip", Action::Nip);
        self.add_primitive("depth", Action::Depth);
        self.add_primitive("?stacks", Action::CheckStacks);
        self.add_primitive("0<", Action::ZeroLess);
        self.add_primitive("=", Action::Equals);
        self.add_primitive("<", Action::LessThan);
        self.add_primitive("invert", Action::Invert);
        self.add_primitive("and", Action::And);
        self.add_primitive("or", Action::Or);
        self.add_primitive("xor", Action::Xor);
        self.add_primitive("lshift", Action::Lshift);
        self.add_primitive("rshift", Action::Rshift);
    }

    /// Add arithmetic and data-space primitives.
    #[verifier::rlimit(30)]
    pub fn core_memory(&mut self)
        requires
            old(self).wf(),
        ensures
            final(self).wf(),
            final(self)@ == old(self)@.core_memory(),
            final(self).wordlist@.len() == old(self).wordlist@.len() + 17,
            final(self)@.same_machine(old(self)@),
            old(self)@.here == SYSTEM_VARIABLES_SIZE ==> final(self)@.here == SYSTEM_VARIABLES_SIZE,
            old(self)@.code_here == 0 ==> final(self)@.code_here == 0,
    {
        reveal(VmView::core_memory);
        self.add_primitive("1+", Action::OnePlus);
        self.add_primitive("1-", Action::OneMinus);
        self.add_primitive("-", Action::Minus);
        self.add_primitive("+", Action::Plus);
        self.add_primitive("*", Action::Star);
        self.add_primitive("/mod", Action::SlashMod);
        self.add_primitive("cell+", Action::CellPlus);
        self.add_primitive("cells", Action::Cells);
        self.add_primitive("@", Action::Fetch);
        self.add_primitive("!", Action::Store);
        self.add_primitive("char+", Action::CharPlus);
        self.add_primitive("chars", Action::Chars);
        self.add_primitive("here", Action::Here);
        self.add_primitive("allot", Action::Allot);
        self.add_primitive("c@", Action::CFetch);
        self.add_primitive("c!", Action::CStore);
        self.add_primitive("base", Action::Base);
    }

    /// Add the immediate words of the compiler.
    #[verifier::rlimit(30)]
    pub fn core_immediate(&mut self)
        requires
            old(self).wf(),
        ensures
            final(self).wf(),
            final(self)@ == old(self)@.core_immediate(),
            final(self).wordlist@.len() == old(self).wordlist@.len() + 21,
            final(self)@.same_machine(old(self)@),
            old(self)@.here == SYSTEM_VARIABLES_SIZE ==> final(self)@.here == SYSTEM_VARIABLES_SIZE,
            old(self)@.code_here == 0 ==> final(self)@.code_here == 0,
    {
        reveal(VmView::core_immediate);
        self.add_immediate("(", Action::Paren);
        self.add_immediate("\\", Action::Backslash);
        self.add_immediate("[", Action::LeftBracket);
        self.add_immediate_and_compile_only("[char]", Action::BracketChar);
        self.add_immediate_and_compile_only(";", Action::Semicolon);
        self.add_immediate_and_compile_only("if", Action::If);
        self.add_immediate_and_compile_only("else", Action::Else);
        self.add_immediate_and_compile_only("then", Action::Then);
        self.add_immediate_and_compile_only("case", Action::Case);
        self.add_immediate_and_compile_only("of", Action::Of);
        self.add_immediate_and_compile_only("endof", Action::Endof);
        self.add_immediate_and_compile_only("endcase", Action::Endcase);
        self.add_immediate_and_compile_only("begin", Action::Begin);
        self.add_immediate_and_compile_only("while", Action::While);
        self.add_immediate_and_compile_only("repeat", Action::Repeat);
        self.add_immediate_and_compile_only("again", Action::Again);
        self.add_immediate_and_compile_only("recurse", Action::Recurse);
        self.add_immediate_and_compile_only("do", Action::Do);
        self.add_immediate_and_compile_only("?do", Action::QDo);
        self.add_immediate_and_compile_only("loop", Action::Loop);
        self.add_immediate_and_compile_only("+loop", Action::PlusLoop);
    }

    /// Add more stack and arithmetic primitives.
    #[verifier::rlimit(30)]
    pub fn core_more(&mut self)
        requires
            old(self).wf(),
        ensures
            final(self).wf(),
            final(self)@ == old(self)@.core_more(),
            final(self).wordlist@.len() == old(self).wordlist@.len() + 19,
            final(self)@.same_machine(old(self)@),
            old(self)@.here == SYSTEM_VARIABLES_SIZE ==> final(self)@.here == SYSTEM_VARIABLES_SIZE,
            old(self)@.code_here == 0 ==> final(self)@.code_here == 0,
    {
        reveal(VmView::core_more);
        self.add_primitive("true", Action::True);
        self.add_primitive("false", Action::False);
        self.add_primitive("not", Action::ZeroEquals);
        self.add_primitive("0=", Action::ZeroEquals);
        self.add_primitive("0>", Action::ZeroGreater);
        self.add_primitive("0<>", Action::ZeroNotEquals);
        self.add_primitive(">", Action::GreaterThan);
        self.add_primitive("<>", Action::NotEquals);
        self.add_primitive("within", Action::Within);
        self.add_primitive("rot", Action::Rot);
        self.add_primitive("-rot", Action::MinusRot);
        self.add_primitive("2dup", Action::TwoDup);
        self.add_primitive("2drop", Action::TwoDrop);
        self.add_primitive("2swap", Action::TwoSwap);
        self.add_primitive("2over", Action::TwoOver);
        self.add_primitive("/", Action::Slash);
        self.add_primitive("mod", Action::Mod);
        self.add_primitive("abs", Action::Abs);
        self.add_primitive("negate", Action::Negate);
    }

    /// Add the defining words and the outer interpreter.
    #[verifier::rlimit(30)]
    pub fn core_outer(&mut self)
        requires
            old(self).wf(),
        ensures
            final(self).wf(),
            final(self)@ == old(self)@.core_outer(),
            final(self).wordlist@.len() == old(self).wordlist@.len() + 20,
            final(self)@.same_machine(old(self)@),
            old(self)@.here == SYSTEM_VARIABLES_SIZE ==> final(self)@.here == SYSTEM_VARIABLES_SIZE,
            old(self)@.code_here == 0 ==> final(self)@.code_here == 0,
    {
        reveal(VmView::core_outer);
        self.add_primitive("parse-word", Action::ParseWord);
        self.add_primitive("char", Action::Char);
        self.add_primitive("parse", Action::Parse);
        self.add_primitive(":", Action::Colon);
        self.add_primitive("constant", Action::Constant);
        self.add_primitive("variable", Action::Variable);
        self.add_primitive("create", Action::Create);
        self.add_primitive("'", Action::Tick);
        self.add_primitive("]", Action::RightBracket);
        self.add_primitive(",", Action::Comma);
        self.add_primitive("marker", Action::Marker);
        self.add_primitive("handler!", Action::HandlerStore);
        self.add_primitive("error?", Action::ErrorQ);
        self.add_primitive("handle-error", Action::HandleError);
        self.add_primitive("reset", Action::Reset);
        self.add_primitive("abort", Action::Abort);
        self.add_primitive("compiling?", Action::Compiling);
        self.add_primitive("token-empty?", Action::TokenEmpty);
        self.add_primitive("compile-token", Action::CompileToken);
        self.add_primitive("interpret-token", Action::InterpretToken);
    }

    /// Add the output words.
    #[verifier::rlimit(30)]
    pub fn output_words(&mut self)
        requires
            old(self).wf(),
        ensures
            final(self).wf(),
            final(self)@ == old(self)@.output_words(),
            final(self).wordlist@.len() == old(self).wordlist@.len() + 7,
            final(self)@.same_machine(old(self)@),
            old(self)@.here == SYSTEM_VARIABLES_SIZE ==> final(self)@.here == SYSTEM_VARIABLES_SIZE,
            old(self)@.code_here == 0 ==> final(self)@.code_here == 0,
    {
        reveal(VmView::output_words);
        self.add_primitive("emit", Action::Emit);
        self.add_primitive("type", Action::Type);
        self.add_immediate_and_compile_only("s\"", Action::SQuote);
        self.add_immediate_and_compile_only(".\"", Action::DotQuote);
        self.add_immediate(".(", Action::DotParen);
        self.add_primitive(".r", Action::DotR);
        self.add_primitive("flush-output", Action::FlushOutput);
    }

    /// Add the programming tools.
    #[verifier::rlimit(30)]
    pub fn tools_words(&mut self)
        requires
            old(self).wf(),
        ensures
            final(self).wf(),
            final(self)@ == old(self)@.tools_words(),
            final(self).wordlist@.len() == old(self).wordlist@.len() + 8,
            final(self)@.same_machine(old(self)@),
            old(self)@.here == SYSTEM_VARIABLES_SIZE ==> final(self)@.here == SYSTEM_VARIABLES_SIZE,
            old(self)@.code_here == 0 ==> final(self)@.code_here == 0,
    {
        reveal(VmView::tools_words);
        self.add_primitive("words", Action::Words);
        self.add_primitive(".s", Action::DotS);
        self.add_primitive(".memory", Action::DotMemory);
        self.add_primitive("(xtime)", Action::SetExecutionTimes);
        self.add_primitive(".xtime", Action::DotXtime);
        self.add_primitive("0xtime", Action::ClearXtime);
        self.add_primitive(".input", Action::DotInput);
        self.add_primitive("flush-to-err", Action::FlushToErr);
    }

    /// Add the environment queries.
    #[verifier::rlimit(30)]
    pub fn environment_words(&mut self)
        requires
            old(self).wf(),
        ensures
            final(self).wf(),
            final(self)@ == old(self)@.environment_words(),
            final(self).wordlist@.len() == old(self).wordlist@.len() + 2,
            final(self)@.same_machine(old(self)@),
            old(self)@.here == SYSTEM_VARIABLES_SIZE ==> final(self)@.here == SYSTEM_VARIABLES_SIZE,
            old(self)@.code_here == 0 ==> final(self)@.code_here == 0,
    {
        reveal(VmView::environment_words);
        self.add_primitive("max-n", Action::MaxN);
        self.add_primitive("max-u", Action::MaxU);
    }

    /// Add the clock words.
    #[verifier::rlimit(30)]
    pub fn facility_words(&mut self)
        requires
            old(self).wf(),
        ensures
            final(self).wf(),
            final(self)@ == old(self)@.facility_words(),
            final(self).wordlist@.len() == old(self).wordlist@.len() + 2,
            final(self)@.same_machine(old(self)@),
            old(self)@.here == SYSTEM_VARIABLES_SIZE ==> final(self)@.here == SYSTEM_VARIABLES_SIZE,
            old(self)@.code_here == 0 ==> final(self)@.code_here == 0,
    {
        reveal(VmView::facility_words);
        self.add_primitive("ntime", Action::Ntime);
        self.add_primitive("utime", Action::Utime);
    }

    /// Add the core words.
    pub fn add_core(&mut self)
        requires
            old(self).wf(),
        ensures
            final(self).wf(),
            final(self)@ == old(self)@.with_core(),
            final(self)@.same_machine(old(self)@),
            old(self)@.here == SYSTEM_VARIABLES_SIZE ==> final(self)@.here == SYSTEM_VARIABLES_SIZE,
            old(self)@.code_here == 0 ==> final(self)@.code_here == 0,
    {
        let base = self.wordlist.len();
        self.core_bytecodes();
        self.core_stack();
        self.core_memory();
        self.core_immediate();
        self.core_more();
        self.core_outer();
        let n = self.wordlist.len();
        assert(n == base + 115);
        self.references.idx_exit = base + 1;
        self.references.idx_lit = base + 2;
        self.references.idx_flit = base + 3;
        self.references.idx_s_quote = base + 4;
        self.references.idx_branch = base + 5;
        self.references.idx_zero_branch = base + 6;
        self.references.idx_do = base + 7;
        self.references.idx_qdo = base + 8;
        self.references.idx_loop = base + 9;
        self.references.idx_plus_loop = base + 10;
        self.references.idx_drop = base + 23;
        self.references.idx_over = base + 25;
        self.references.idx_equal = base + 30;
    }

    /// Let `leave` be compiled by its own semantics.
    pub fn patch_compilation_semanticses(&mut self)
        requires
            old(self).wf(),
        ensures
            final(self).wf(),
            final(self)@ == old(self)@.patch_compilation_semanticses(),
            final(self)@.same_machine(old(self)@),
            old(self)@.here == SYSTEM_VARIABLES_SIZE ==> final(self)@.here == SYSTEM_VARIABLES_SIZE,
            old(self)@.code_here == 0 ==> final(self)@.code_here == 0,
    {
        match self.find("leave") {
            Some(i) => {
                let mut w = self.wordlist[i];
                w.compilation_semantics = Compilation::Leave;
                self.wordlist.set(i, w);
            },
            None => {},
        }
    }
}

/// A machine that can take the output words.
pub trait Output {
    /// The machine can take words.
    spec fn output_ready(&self) -> bool;

    /// Add the output words.
    fn add_output(&mut self)
        requires
            old(self).output_ready(),
        ensures
            final(self).output_ready(),
    ;
}

/// A machine that can take the programming tools.
pub trait Tools {
    /// The machine can take words.
    spec fn tools_ready(&self) -> bool;

    /// Add the programming tools.
    fn add_tools(&mut self)
        requires
            old(self).tools_ready(),
        ensures
            final(self).tools_ready(),
    ;
}

/// A machine that can take the clock words.
pub trait Facility {
    /// The machine can take words.
    spec fn facility_ready(&self) -> bool;

    /// Add the clock words.
    fn add_facility(&mut self)
        requires
            old(self).facility_ready(),
        ensures
            final(self).facility_ready(),
    ;
}

/// A machine that can take the environment queries.
pub trait Environment {
    /// The machine can take words.
    spec fn environment_ready(&self) -> bool;

    /// Add the environment queries.
    fn add_environment(&mut self)
        requires
            old(self).environment_ready(),
        ensures
            final(self).environment_ready(),
    ;
}

impl Output for VM {
    open spec fn output_ready(&self) -> bool {
        self.wf()
    }

    /// Add the output words.
    fn add_output(&mut self)
        ensures
            final(self)@ == old(self)@.with_output(),
            final(self)@.same_machine(old(self)@),
            old(self)@.here == SYSTEM_VARIABLES_SIZE ==> final(self)@.here == SYSTEM_VARIABLES_SIZE,
            old(self)@.code_here == 0 ==> final(self)@.code_here == 0,
    {
        let base = self.wordlist.len();
        self.output_words();
        let n = self.wordlist.len();
        assert(n == base + 7);
        self.references.idx_type = base + 1;
    }
}

impl Tools for VM {
    open spec fn tools_ready(&self) -> bool {
        self.wf()
    }

    /// Add the programming tools.
    fn add_tools(&mut self)
        ensures
            final(self)@ == old(self)@.tools_words(),
            final(self)@.same_machine(old(self)@),
            old(self)@.here == SYSTEM_VARIABLES_SIZE ==> final(self)@.here == SYSTEM_VARIABLES_SIZE,
            old(self)@.code_here == 0 ==> final(self)@.code_here == 0,
    {
        self.tools_words();
    }
}

impl Environment for VM {
    open spec fn environment_ready(&self) -> bool {
        self.wf()
    }

    /// Add the environment queries.
    fn add_environment(&mut self)
        ensures
            final(self)@ == old(self)@.environment_words(),
            final(self).wordlist@.len() == old(self).wordlist@.len() + 2,
            final(self)@.same_machine(old(self)@),
            old(self)@.here == SYSTEM_VARIABLES_SIZE ==> final(self)@.here == SYSTEM_VARIABLES_SIZE,
            old(self)@.code_here == 0 ==> final(self)@.code_here == 0,
    {
        self.environment_words();
    }
}

impl Facility for VM {
    open spec fn facility_ready(&self) -> bool {
        self.wf()
    }

    /// Add the clock words.
    fn add_facility(&mut self)
        ensures
            final(self)@ == old(self)@.facility_words(),
            final(self)@.same_machine(old(self)@),
            old(self)@.here == SYSTEM_VARIABLES_SIZE ==> final(self)@.here == SYSTEM_VARIABLES_SIZE,
            old(self)@.code_here == 0 ==> final(self)@.code_here == 0,
    {
        self.facility_words();
    }
}

impl VM {
    /// The machine is as `VM::new` makes it: empty stacks and buffers,
    /// fresh data and code spaces of the given sizes, and the full word list.
    pub open spec fn is_new(&self, data_cap: nat, code_cap: nat) -> bool {
        &&& self.wf()
        &&& self.data_space.is_fresh(data_cap)
        &&& self@.code_cap == code_cap
        &&& self@.code == Seq::new(code_cap, |i: int| crate::codespace::FILL_BYTE)
        &&& self@.code_here == 0
        &&& self@.s.len == 0
        &&& self@.s.canary == STACK_CANARY
        &&& self.s_stk.canaries_intact()
        &&& self@.r.len == 0
        &&& self@.r.canary == STACK_CANARY
        &&& self.r_stk.canaries_intact()
        &&& self@.c.len == 0
        &&& self@.c.canary == Control::Canary
        &&& self.c_stk.canaries_intact()
        &&& self@.input.len() == 0
        &&& self@.token.len() == 0
        &&& self@.output.len() == 0
        &&& self@.state == State {
            is_compiling: false,
            instruction_pointer: 0,
            word_pointer: 0,
            source_index: 0,
        }
        &&& self@.error is None
        &&& self@.handler == 0
        &&& self@.pending_xt is None
        &&& !self@.pending_handler
        &&& self@.request is None
        &&& self@ == self@.without_words().dictionary()
    }

    /// `r` is what `with_page_size(data_pages, code_pages, page_size)`
    /// gives: a new machine with spaces of those sizes, or `None` when a
    /// space does not fit in an `isize` or the data space is smaller than
    /// the system variables.
    pub open spec fn made_with_page_size(r: Option<VM>, data_pages: usize, code_pages: usize, page_size: usize) -> bool {
        &&& (r is Some <==> SYSTEM_VARIABLES_SIZE <= data_pages * page_size <= isize::MAX
            && code_pages * PAGE_SIZE <= isize::MAX)
        &&& (r matches Some(vm) ==> vm.is_new((data_pages * page_size) as nat, (code_pages * PAGE_SIZE) as nat))
    }

    /// A machine with `data_pages` pages of `page_size` bytes of data space
    /// and `code_pages` pages of code space; `None` when a space does not fit
    /// in an `isize`, or the data space is smaller than the system variables.
    pub fn with_page_size(data_pages: usize, code_pages: usize, page_size: usize) -> (r: Option<
        VM,
    >)
        ensures
            Self::made_with_page_size(r, data_pages, code_pages, page_size),
            r is Some <==> SYSTEM_VARIABLES_SIZE <= data_pages * page_size <= isize::MAX
                && code_pages * PAGE_SIZE <= isize::MAX,
            r matches Some(vm) ==> vm.is_new((data_pages * page_size) as nat, (code_pages * PAGE_SIZE) as nat),
    {
        let data_space = match DataSpace::with_page_size(data_pages, page_size) {
            Some(d) => d,
            None => {
                return None;
            },
        };
        match code_pages.checked_mul(PAGE_SIZE) {
            Some(n) => {
                if n > isize::MAX as usize {
                    return None;
                }
            },
            None => {
                return None;
            },
        }
        let code_space = CodeSpace::new(code_pages);
        let mut vm = VM {
            last_error: None,
            handler: 0,
            s_stk: Stack::new(STACK_CANARY),
            r_stk: Stack::new(STACK_CANARY),
            c_stk: Stack::new(Control::Canary),
            symbols: Vec::new(),
            last_definition: 0,
            wordlist: Vec::new(),
            data_space,
            code_space,
            inbuf: Vec::new(),
            tkn: Vec::new(),
            outbuf: Vec::new(),
            state: State::new(),
            references: ForwardReferences::new(),
            pending_xt: None,
            pending_handler: false,
            request: None,
        };
        let ghost start = vm@;
        assert(start == start.without_words());
        vm.add_core();
        vm.add_output();
        vm.add_tools();
        vm.add_environment();
        vm.add_facility();
        vm.patch_compilation_semanticses();
        assert(vm@.without_words() == start);
        Some(vm)
    }

    /// A machine with `data_pages` pages of data space and `code_pages`
    /// pages of code space, pages of data space being of the machine's
    /// page size.
    pub fn new(data_pages: usize, code_pages: usize) -> (r: Option<VM>)
        ensures
            r matches Some(vm) ==> exists|p: nat| #[trigger] vm.is_new((data_pages * p) as nat, (code_pages * PAGE_SIZE) as nat),
            code_pages * PAGE_SIZE > isize::MAX ==> r is None,
            exists|p: usize| #[trigger] Self::made_with_page_size(r, data_pages, code_pages, p),
    {
        let ps = crate::memory::page_size_get();
        Self::with_page_size(data_pages, code_pages, ps)
    }
}

} // verus!
