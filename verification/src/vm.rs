//! The Forth virtual machine: word list, stacks, data space, and the inner
//! and outer interpreters.
//!
//! Compiled code is token threaded: a colon definition is a sequence of
//! 32-bit word indices in data space, some followed by an inline 32-bit
//! operand. The behaviour of every word is given by a spec function on
//! `VmView`, the abstract state of the machine, and the executable code is
//! proved to follow it.

use vstd::prelude::*;

use crate::exception::Exception;
use crate::kernel::{Control, ForwardReferences, Stack, StackView, State, Symbol};
use crate::memory::{field_value, write_field, DataSpace, SYSTEM_VARIABLES_SIZE};
use crate::codespace::CodeSpace;
use crate::parser::FloatParts;

verus! {

/// The value of a true flag: all bits set.
pub const TRUE: isize = -1;

/// The value of a false flag.
pub const FALSE: isize = 0;

/// The canary of the data and return stacks.
pub const STACK_CANARY: isize = 0x12345678;

/// What executing a word does.
#[derive(Clone, Copy, Debug, PartialEq, Eq, Structural)]
pub enum Action {
    Noop,
    Exit,
    Lit,
    SQuoteRuntime,
    Branch,
    ZeroBranch,
    DoRuntime,
    QDoRuntime,
    LoopRuntime,
    PlusLoopRuntime,
    Unloop,
    Leave,
    I,
    J,
    ToR,
    RFrom,
    RFetch,
    TwoToR,
    TwoRFrom,
    TwoRFetch,
    Execute,
    Dup,
    Drop,
    Swap,
    Over,
    Nip,
    Depth,
    CheckStacks,
    ZeroLess,
    Equals,
    LessThan,
    Invert,
    And,
    Or,
    Xor,
    Lshift,
    Rshift,
    OnePlus,
    OneMinus,
    Minus,
    Plus,
    Star,
    SlashMod,
    CellPlus,
    Cells,
    Fetch,
    Store,
    CharPlus,
    Chars,
    Here,
    Allot,
    CFetch,
    CStore,
    Base,
    Paren,
    Backslash,
    LeftBracket,
    BracketChar,
    Semicolon,
    If,
    Else,
    Then,
    Case,
    Of,
    Endof,
    Endcase,
    Begin,
    While,
    Repeat,
    Again,
    Recurse,
    Do,
    QDo,
    Loop,
    PlusLoop,
    True,
    False,
    ZeroEquals,
    ZeroGreater,
    ZeroNotEquals,
    GreaterThan,
    NotEquals,
    Within,
    Rot,
    MinusRot,
    TwoDup,
    TwoDrop,
    TwoSwap,
    TwoOver,
    Slash,
    Mod,
    Abs,
    Negate,
    ParseWord,
    Char,
    Parse,
    Colon,
    Constant,
    Variable,
    Create,
    Tick,
    RightBracket,
    Comma,
    Marker,
    HandlerStore,
    ErrorQ,
    HandleError,
    Reset,
    Abort,
    Compiling,
    TokenEmpty,
    CompileToken,
    InterpretToken,
    Nest,
    Var,
    Const,
    Unmark,
    Emit,
    Type,
    SQuote,
    DotQuote,
    DotParen,
    MaxN,
    MaxU,
    DotR,
    DotS,
    Words,
    DotMemory,
    DotInput,
    Ntime,
    Utime,
    FlushOutput,
    FlushToErr,
    Bye,
    Host(u16),
    SetExecutionTimes,
    DotXtime,
    ClearXtime,
    Flit,
    FloatPlus,
    Floats,
    FAligned,
    FAlign,
    FFetch,
    FStore,
    FConstant,
    FConst,
}

/// Outside work that a word asks of the program around the machine, which
/// does it and resumes the machine.
#[derive(Clone, Copy, Debug, PartialEq, Eq, Structural)]
pub enum Request {
    /// The time since some epoch, in microseconds or in nanoseconds.
    Time { micros: bool },
    /// Print the output and empty it.
    FlushOutput,
    /// Print the output on the error stream and empty it.
    FlushToErr,
    /// Print the output and end the program.
    Bye,
    /// Do the work of word number `n` of the program's own word set.
    Host(u16),
    /// Read the clock to record the execution time of a word.
    ExecutionTime,
    /// Push the floating-point number with the bit pattern given.
    PushFloat(u64),
    /// Push the floating-point number a literal denotes.
    FloatLiteral(FloatParts),
    /// Compile the floating-point number a literal denotes, by
    /// `complete_compile_float` with its bit pattern.
    CompileFloat(FloatParts),
    /// Take a float from the float stack, to store it at the address
    /// given, by `complete_store_float` with its bit pattern.
    StoreFloat(usize),
    /// Take a float from the float stack, to define a constant of it, by
    /// `complete_fconstant` with its bit pattern.
    FConstant,
}

/// How a word is compiled into a definition.
#[derive(Clone, Copy, Debug, PartialEq, Eq, Structural)]
pub enum Compilation {
    /// Compile the index of the word.
    Word,
    /// Compile the index of `leave`, which must stand inside a do-loop.
    Leave,
}

/// A definition in the word list.
#[derive(Clone, Copy, Debug)]
pub struct Word {
    pub symbol: Symbol,
    pub is_immediate: bool,
    pub is_compile_only: bool,
    pub hidden: bool,
    pub dfa: usize,
    pub cfa: usize,
    pub action: Action,
    pub compilation_semantics: Compilation,
    /// The shortest execution time measured, in microseconds; 0 if none.
    pub min_execution_time: usize,
    /// The longest execution time measured, in microseconds.
    pub max_execution_time: usize,
}

impl Word {
    /// A visible, ordinary word.
    pub fn new(
        symbol: Symbol,
        action: Action,
        compilation_semantics: Compilation,
        dfa: usize,
        cfa: usize,
    ) -> (r: Word)
        ensures
            r == (Word {
                symbol,
                is_immediate: false,
                is_compile_only: false,
                hidden: false,
                dfa,
                cfa,
                action,
                compilation_semantics,
                min_execution_time: 0,
                max_execution_time: 0,
            }),
    {
        Word {
            symbol: symbol,
            is_immediate: false,
            is_compile_only: false,
            hidden: false,
            dfa: dfa,
            cfa: cfa,
            action: action,
            compilation_semantics: compilation_semantics,
            min_execution_time: 0,
            max_execution_time: 0,
        }
    }

    pub fn symbol(&self) -> (r: Symbol)
        ensures
            r == self.symbol,
    {
        self.symbol
    }

    pub fn is_immediate(&self) -> (r: bool)
        ensures
            r == self.is_immediate,
    {
        self.is_immediate
    }

    pub fn set_immediate(&mut self, flag: bool)
        ensures
            *final(self) == (Word { is_immediate: flag, ..*old(self) }),
    {
        self.is_immediate = flag;
    }

    pub fn is_compile_only(&self) -> (r: bool)
        ensures
            r == self.is_compile_only,
    {
        self.is_compile_only
    }

    pub fn set_compile_only(&mut self, flag: bool)
        ensures
            *final(self) == (Word { is_compile_only: flag, ..*old(self) }),
    {
        self.is_compile_only = flag;
    }

    pub fn is_hidden(&self) -> (r: bool)
        ensures
            r == self.hidden,
    {
        self.hidden
    }

    pub fn set_hidden(&mut self, flag: bool)
        ensures
            *final(self) == (Word { hidden: flag, ..*old(self) }),
    {
        self.hidden = flag;
    }

    pub fn dfa(&self) -> (r: usize)
        ensures
            r == self.dfa,
    {
        self.dfa
    }

    pub fn cfa(&self) -> (r: usize)
        ensures
            r == self.cfa,
    {
        self.cfa
    }

    pub fn action(&self) -> (r: Action)
        ensures
            r == self.action,
    {
        self.action
    }
}

/// The abstract state of the virtual machine.
#[verifier::ext_equal]
pub struct VmView {
    pub s: StackView<isize>,
    pub r: StackView<isize>,
    pub c: StackView<Control>,
    pub mem: Seq<u8>,
    pub here: nat,
    pub code: Seq<u8>,
    pub code_here: usize,
    pub code_cap: usize,
    pub words: Seq<Word>,
    pub symbols: Seq<Seq<u8>>,
    pub input: Seq<u8>,
    pub token: Seq<u8>,
    pub output: Seq<u8>,
    pub state: State,
    pub error: Option<Exception>,
    pub handler: usize,
    pub pending_xt: Option<usize>,
    pub pending_handler: bool,
    pub last_definition: usize,
    pub refs: ForwardReferences,
    pub request: Option<Request>,
}

/// The Forth virtual machine.
pub struct VM {
    pub last_error: Option<Exception>,
    pub handler: usize,
    pub s_stk: Stack<isize>,
    pub r_stk: Stack<isize>,
    pub c_stk: Stack<Control>,
    pub symbols: Vec<Vec<u8>>,
    pub last_definition: usize,
    pub wordlist: Vec<Word>,
    pub data_space: DataSpace,
    pub code_space: CodeSpace,
    pub inbuf: Vec<u8>,
    pub tkn: Vec<u8>,
    pub outbuf: Vec<u8>,
    pub state: State,
    pub references: ForwardReferences,
    pub pending_xt: Option<usize>,
    pub pending_handler: bool,
    pub request: Option<Request>,
}

impl View for VM {
    type V = VmView;

    open spec fn view(&self) -> VmView {
        VmView {
            s: self.s_stk@,
            r: self.r_stk@,
            c: self.c_stk@,
            mem: self.data_space.mem(),
            here: self.data_space.here_pos(),
            code: self.code_space.code(),
            code_here: self.code_space.len_view(),
            code_cap: self.code_space.cap_view(),
            words: self.wordlist@,
            symbols: self.symbols.deep_view(),
            input: self.inbuf@,
            token: self.tkn@,
            output: self.outbuf@,
            state: self.state,
            error: self.last_error,
            handler: self.handler,
            pending_xt: self.pending_xt,
            pending_handler: self.pending_handler,
            request: self.request,
            last_definition: self.last_definition,
            refs: self.references,
        }
    }
}

impl VmView {
    /// Data space holds the system variables, its addresses fit in an
    /// `isize`, and its pointer lies within it.
    pub open spec fn wf(self) -> bool {
        &&& SYSTEM_VARIABLES_SIZE <= self.mem.len() <= isize::MAX
        &&& self.here <= self.mem.len()
    }

    /// A flag: `TRUE` or `FALSE`.
    pub open spec fn flag(b: bool) -> isize {
        if b {
            TRUE
        } else {
            FALSE
        }
    }

    /// Set the error, clear the data stack, and let the handler run next.
    pub open spec fn abort_with(self, e: Exception) -> VmView {
        VmView { s: self.s.reset(), error: Some(e), pending_handler: true, ..self }
    }

    /// The data stack replaced by `s`.
    pub open spec fn with_s(self, s: StackView<isize>) -> VmView {
        VmView { s, ..self }
    }

    /// The instruction pointer set to `ip`.
    pub open spec fn with_ip(self, ip: usize) -> VmView {
        VmView { state: State { instruction_pointer: ip, ..self.state }, ..self }
    }

    /// The 32-bit field of data space at `addr`, signed.
    pub open spec fn field(self, addr: int) -> i32 {
        field_value(self.mem, addr) as i32
    }

    /// The return stack replaced by `r`.
    pub open spec fn with_r(self, r: StackView<isize>) -> VmView {
        VmView { r, ..self }
    }

    /// The control-flow stack replaced by `c`.
    pub open spec fn with_c(self, c: StackView<Control>) -> VmView {
        VmView { c, ..self }
    }

    /// The instruction pointer.
    pub open spec fn ip(self) -> usize {
        self.state.instruction_pointer
    }

    /// The inline operand at the instruction pointer lies in data space.
    pub open spec fn operand_ok(self) -> bool {
        self.ip() + 4 <= self.mem.len()
    }

    /// The inline operand at the instruction pointer.
    pub open spec fn operand(self) -> i32 {
        self.field(self.ip() as int)
    }

    /// Step over the inline operand.
    pub open spec fn skip_operand(self) -> VmView {
        self.with_ip((self.ip() + 4) as usize)
    }

    /// Branch to the address held in the inline operand.
    pub open spec fn jump(self) -> VmView {
        self.with_ip(self.operand() as usize)
    }

    /// There are `n` free bytes at the data-space pointer.
    pub open spec fn room(self, n: int) -> bool {
        self.here + n <= self.mem.len()
    }

    /// The 32-bit field `v` laid down at the data-space pointer.
    pub open spec fn comp(self, v: u32) -> VmView {
        VmView { mem: write_field(self.mem, self.here as int, v), here: self.here + 4, ..self }
    }

    /// The field just before `p` can hold a branch target.
    pub open spec fn patch_ok(self, p: usize) -> bool {
        4 <= p <= self.mem.len()
    }

    /// The field just before `p` set to the data-space pointer.
    pub open spec fn patch(self, p: usize) -> VmView {
        VmView { mem: write_field(self.mem, p - 4, (self.here as i32) as u32), ..self }
    }

    /// `self` and `o` differ at most in their word list, symbols, pointers
    /// and references.
    pub open spec fn same_machine(self, o: VmView) -> bool {
        &&& self.s == o.s
        &&& self.r == o.r
        &&& self.c == o.c
        &&& self.mem == o.mem
        &&& self.code == o.code
        &&& self.code_cap == o.code_cap
        &&& self.input == o.input
        &&& self.token == o.token
        &&& self.output == o.output
        &&& self.state == o.state
        &&& self.error == o.error
        &&& self.handler == o.handler
        &&& self.pending_xt == o.pending_xt
        &&& self.pending_handler == o.pending_handler
        &&& self.request == o.request
    }

    /// The word being executed is in the word list.
    pub open spec fn current_word_ok(self) -> bool {
        self.state.word_pointer < self.words.len()
    }

    /// The word being executed.
    pub open spec fn current_word(self) -> Word {
        self.words[self.state.word_pointer as int]
    }
}

impl VM {
    /// The machine is well formed.
    pub open spec fn wf(&self) -> bool {
        &&& self@.wf()
        &&& self.data_space.wf()
        &&& self.code_space.wf()
    }

    /// The last error.
    pub fn last_error(&self) -> (r: Option<Exception>)
        ensures
            r == self@.error,
    {
        self.last_error
    }

    /// Set the last error.
    pub fn set_error(&mut self, e: Option<Exception>)
        requires
            old(self).wf(),
        ensures
            final(self).wf(),
            final(self)@ == (VmView { error: e, ..old(self)@ }),
    {
        self.last_error = e;
    }

    /// Abort with exception `e`: clear the data stack, record the error and
    /// let the handler run next.
    pub fn abort_with(&mut self, e: Exception)
        requires
            old(self).wf(),
        ensures
            final(self).wf(),
            final(self)@ == old(self)@.abort_with(e),
    {
        self.s_stk.reset();
        self.last_error = Some(e);
        self.pending_handler = true;
    }
}

} // verus!
