//! Exception codes of the Forth system, numbered as in ANS Forth.

use vstd::prelude::*;

verus! {

/// An ANS Forth exception. Each variant stands for one standard throw code,
/// given by `Exception::code`.
#[derive(Debug, Copy, Clone, PartialEq, Eq, Structural)]
pub enum Exception {
    /// = -1, ANS Forth
    Abort,
    /// = -2, ANS Forth
    AbortQuote,
    /// = -3, ANS Forth
    StackOverflow,
    /// = -4, ANS Forth
    StackUnderflow,
    /// = -5, ANS Forth
    ReturnStackOverflow,
    /// = -6, ANS Forth
    ReturnStackUnderflow,
    /// = -7, ANS Forth
    DoLoopNestedTooDeeply,
    /// = -8, ANS Forth
    DictionaryOverflow,
    /// = -9, ANS Forth
    InvalidMemoryAddress,
    /// = -10, ANS Forth
    DivisionByZero,
    /// = -11, ANS Forth
    ResultOutOfRange,
    /// = -12, ANS Forth
    ArgumentTypeMismatch,
    /// = -13, ANS Forth
    UndefinedWord,
    /// = -14, ANS Forth
    InterpretingACompileOnlyWord,
    /// = -15, ANS Forth
    InvalidForget,
    /// = -16, ANS Forth
    AttemptToUseZeroLengthString,
    /// = -17, ANS Forth
    PicturedNumericOutputStringOverflow,
    /// = -18, ANS Forth
    ParsedStringOverflow,
    /// = -19, ANS Forth
    DefinitionNameTooLong,
    /// = -20, ANS Forth
    WriteToAReadOnlyLocation,
    /// = -21, ANS Forth
    UnsupportedOperation,
    /// = -22, ANS Forth
    ControlStructureMismatch,
    /// = -23, ANS Forth
    AddressAlignmentException,
    /// = -24, ANS Forth
    InvalidNumericArgument,
    /// = -25, ANS Forth
    ReturnStackImbalance,
    /// = -26, ANS Forth
    LoopParametersUnavailable,
    /// = -27, ANS Forth
    InvalidRecursion,
    /// = -28, ANS Forth
    UserInterrupt,
    /// = -29, ANS Forth
    CompilerNesting,
    /// = -30, ANS Forth
    ObsolescentFeature,
    /// = -31, ANS Forth
    ToBodyUsedOnNonCreatedDefinition,
    /// = -32, ANS Forth
    InvalidNameArgument,
    /// = -33, ANS Forth
    BlockReadException,
    /// = -34, ANS Forth
    BlockWriteException,
    /// = -35, ANS Forth
    InvalidBlockNumber,
    /// = -36, ANS Forth
    InvalidFilePosition,
    /// = -37, ANS Forth
    FileIoException,
    /// = -38, ANS Forth
    NonExistentFile,
    /// = -39, ANS Forth
    UnexpectedEndOfFile,
    /// = -40, ANS Forth
    InvalidBaseForFloatingPointConversion,
    /// = -41, ANS Forth
    LossOfPrecision,
    /// = -42, ANS Forth
    FloatingPointDividedByZero,
    /// = -43, ANS Forth
    FloatingPointResultOutOfRange,
    /// = -44, ANS Forth
    FloatingPointStackOverflow,
    /// = -45, ANS Forth
    FloatingPointStackUnderflow,
    /// = -46, ANS Forth
    FloatingPointInvalidArgument,
    /// = -47, ANS Forth
    CompilationWordListDeleted,
    /// = -48, ANS Forth
    InvalidPostpone,
    /// = -49, ANS Forth
    SearchOrderOverflow,
    /// = -50, ANS Forth
    SearchOrderUnderflow,
    /// = -51, ANS Forth
    CompilationWordListChanged,
    /// = -52, ANS Forth
    ControlFlowStackOverflow,
    /// = -53, ANS Forth
    ExceptionStackOverflow,
    /// = -54, ANS Forth
    FloatingPointUnderflow,
    /// = -55, ANS Forth
    FloatingPointUnidentifiedFault,
    /// = -56, ANS Forth
    Quit,
    /// = -57, ANS Forth
    ExceptionInSendingOrReceivingACharacter,
    /// = -58, ANS Forth
    BracketIfElseOrThenException,
}

/// The ANS Forth throw code of exception `e`.
pub open spec fn throw_code(e: Exception) -> i16 {
    match e {
        Exception::Abort => -1i16,
        Exception::AbortQuote => -2i16,
        Exception::StackOverflow => -3i16,
        Exception::StackUnderflow => -4i16,
        Exception::ReturnStackOverflow => -5i16,
        Exception::ReturnStackUnderflow => -6i16,
        Exception::DoLoopNestedTooDeeply => -7i16,
        Exception::DictionaryOverflow => -8i16,
        Exception::InvalidMemoryAddress => -9i16,
        Exception::DivisionByZero => -10i16,
        Exception::ResultOutOfRange => -11i16,
        Exception::ArgumentTypeMismatch => -12i16,
        Exception::UndefinedWord => -13i16,
        Exception::InterpretingACompileOnlyWord => -14i16,
        Exception::InvalidForget => -15i16,
        Exception::AttemptToUseZeroLengthString => -16i16,
        Exception::PicturedNumericOutputStringOverflow => -17i16,
        Exception::ParsedStringOverflow => -18i16,
        Exception::DefinitionNameTooLong => -19i16,
        Exception::WriteToAReadOnlyLocation => -20i16,
        Exception::UnsupportedOperation => -21i16,
        Exception::ControlStructureMismatch => -22i16,
        Exception::AddressAlignmentException => -23i16,
        Exception::InvalidNumericArgument => -24i16,
        Exception::ReturnStackImbalance => -25i16,
        Exception::LoopParametersUnavailable => -26i16,
        Exception::InvalidRecursion => -27i16,
        Exception::UserInterrupt => -28i16,
        Exception::CompilerNesting => -29i16,
        Exception::ObsolescentFeature => -30i16,
        Exception::ToBodyUsedOnNonCreatedDefinition => -31i16,
        Exception::InvalidNameArgument => -32i16,
        Exception::BlockReadException => -33i16,
        Exception::BlockWriteException => -34i16,
        Exception::InvalidBlockNumber => -35i16,
        Exception::InvalidFilePosition => -36i16,
        Exception::FileIoException => -37i16,
        Exception::NonExistentFile => -38i16,
        Exception::UnexpectedEndOfFile => -39i16,
        Exception::InvalidBaseForFloatingPointConversion => -40i16,
        Exception::LossOfPrecision => -41i16,
        Exception::FloatingPointDividedByZero => -42i16,
        Exception::FloatingPointResultOutOfRange => -43i16,
        Exception::FloatingPointStackOverflow => -44i16,
        Exception::FloatingPointStackUnderflow => -45i16,
        Exception::FloatingPointInvalidArgument => -46i16,
        Exception::CompilationWordListDeleted => -47i16,
        Exception::InvalidPostpone => -48i16,
        Exception::SearchOrderOverflow => -49i16,
        Exception::SearchOrderUnderflow => -50i16,
        Exception::CompilationWordListChanged => -51i16,
        Exception::ControlFlowStackOverflow => -52i16,
        Exception::ExceptionStackOverflow => -53i16,
        Exception::FloatingPointUnderflow => -54i16,
        Exception::FloatingPointUnidentifiedFault => -55i16,
        Exception::Quit => -56i16,
        Exception::ExceptionInSendingOrReceivingACharacter => -57i16,
        Exception::BracketIfElseOrThenException => -58i16,
    }
}

impl Exception {
    /// The ANS Forth throw code of the exception.
    pub fn code(&self) -> (r: i16)
        ensures
            r == throw_code(*self),
    {
        match self {
            Exception::Abort => -1,
            Exception::AbortQuote => -2,
            Exception::StackOverflow => -3,
            Exception::StackUnderflow => -4,
            Exception::ReturnStackOverflow => -5,
            Exception::ReturnStackUnderflow => -6,
            Exception::DoLoopNestedTooDeeply => -7,
            Exception::DictionaryOverflow => -8,
            Exception::InvalidMemoryAddress => -9,
            Exception::DivisionByZero => -10,
            Exception::ResultOutOfRange => -11,
            Exception::ArgumentTypeMismatch => -12,
            Exception::UndefinedWord => -13,
            Exception::InterpretingACompileOnlyWord => -14,
            Exception::InvalidForget => -15,
            Exception::AttemptToUseZeroLengthString => -16,
            Exception::PicturedNumericOutputStringOverflow => -17,
            Exception::ParsedStringOverflow => -18,
            Exception::DefinitionNameTooLong => -19,
            Exception::WriteToAReadOnlyLocation => -20,
            Exception::UnsupportedOperation => -21,
            Exception::ControlStructureMismatch => -22,
            Exception::AddressAlignmentException => -23,
            Exception::InvalidNumericArgument => -24,
            Exception::ReturnStackImbalance => -25,
            Exception::LoopParametersUnavailable => -26,
            Exception::InvalidRecursion => -27,
            Exception::UserInterrupt => -28,
            Exception::CompilerNesting => -29,
            Exception::ObsolescentFeature => -30,
            Exception::ToBodyUsedOnNonCreatedDefinition => -31,
            Exception::InvalidNameArgument => -32,
            Exception::BlockReadException => -33,
            Exception::BlockWriteException => -34,
            Exception::InvalidBlockNumber => -35,
            Exception::InvalidFilePosition => -36,
            Exception::FileIoException => -37,
            Exception::NonExistentFile => -38,
            Exception::UnexpectedEndOfFile => -39,
            Exception::InvalidBaseForFloatingPointConversion => -40,
            Exception::LossOfPrecision => -41,
            Exception::FloatingPointDividedByZero => -42,
            Exception::FloatingPointResultOutOfRange => -43,
            Exception::FloatingPointStackOverflow => -44,
            Exception::FloatingPointStackUnderflow => -45,
            Exception::FloatingPointInvalidArgument => -46,
            Exception::CompilationWordListDeleted => -47,
            Exception::InvalidPostpone => -48,
            Exception::SearchOrderOverflow => -49,
            Exception::SearchOrderUnderflow => -50,
            Exception::CompilationWordListChanged => -51,
            Exception::ControlFlowStackOverflow => -52,
            Exception::ExceptionStackOverflow => -53,
            Exception::FloatingPointUnderflow => -54,
            Exception::FloatingPointUnidentifiedFault => -55,
            Exception::Quit => -56,
            Exception::ExceptionInSendingOrReceivingACharacter => -57,
            Exception::BracketIfElseOrThenException => -58,
        }
    }
}

/// The cell value of an exception is its throw code.
impl From<Exception> for isize {
    fn from(e: Exception) -> (r: isize) {
        e.code() as isize
    }
}

impl vstd::std_specs::convert::FromSpecImpl<Exception> for isize {
    open spec fn obeys_from_spec() -> bool {
        true
    }

    open spec fn from_spec(e: Exception) -> isize {
        throw_code(e) as isize
    }
}

/// = -1, ANS Forth
pub const ABORT: Exception = Exception::Abort;

/// = -2, ANS Forth
pub const ABORT_QUOTE: Exception = Exception::AbortQuote;

/// = -3, ANS Forth
pub const STACK_OVERFLOW: Exception = Exception::StackOverflow;

/// = -4, ANS Forth
pub const STACK_UNDERFLOW: Exception = Exception::StackUnderflow;

/// = -5, ANS Forth
pub const RETURN_STACK_OVERFLOW: Exception = Exception::ReturnStackOverflow;

/// = -6, ANS Forth
pub const RETURN_STACK_UNDERFLOW: Exception = Exception::ReturnStackUnderflow;

/// = -7, ANS Forth
pub const DO_LOOP_NESTED_TOO_DEEPLY: Exception = Exception::DoLoopNestedTooDeeply;

/// = -8, ANS Forth
pub const DICTIONARY_OVERFLOW: Exception = Exception::DictionaryOverflow;

/// = -9, ANS Forth
pub const INVALID_MEMORY_ADDRESS: Exception = Exception::InvalidMemoryAddress;

/// = -10, ANS Forth
pub const DIVISION_BY_ZERO: Exception = Exception::DivisionByZero;

/// = -11, ANS Forth
pub const RESULT_OUT_OF_RANGE: Exception = Exception::ResultOutOfRange;

/// = -12, ANS Forth
pub const ARGUMENT_TYPE_MISMATCH: Exception = Exception::ArgumentTypeMismatch;

/// = -13, ANS Forth
pub const UNDEFINED_WORD: Exception = Exception::UndefinedWord;

/// = -14, ANS Forth
pub const INTERPRETING_A_COMPILE_ONLY_WORD: Exception = Exception::InterpretingACompileOnlyWord;

/// = -15, ANS Forth
pub const INVALID_FORGET: Exception = Exception::InvalidForget;

/// = -16, ANS Forth
pub const ATTEMPT_TO_USE_ZERO_LENGTH_STRING: Exception = Exception::AttemptToUseZeroLengthString;

/// = -17, ANS Forth
pub const PICTURED_NUMERIC_OUTPUT_STRING_OVERFLOW: Exception = Exception::PicturedNumericOutputStringOverflow;

/// = -18, ANS Forth
pub const PARSED_STRING_OVERFLOW: Exception = Exception::ParsedStringOverflow;

/// = -19, ANS Forth
pub const DEFINITION_NAME_TOO_LONG: Exception = Exception::DefinitionNameTooLong;

/// = -20, ANS Forth
pub const WRITE_TO_A_READ_ONLY_LOCATION: Exception = Exception::WriteToAReadOnlyLocation;

/// = -21, ANS Forth
pub const UNSUPPORTED_OPERATION: Exception = Exception::UnsupportedOperation;

/// = -22, ANS Forth
pub const CONTROL_STRUCTURE_MISMATCH: Exception = Exception::ControlStructureMismatch;

/// = -23, ANS Forth
pub const ADDRESS_ALIGNMENT_EXCEPTION: Exception = Exception::AddressAlignmentException;

/// = -24, ANS Forth
pub const INVALID_NUMERIC_ARGUMENT: Exception = Exception::InvalidNumericArgument;

/// = -25, ANS Forth
pub const RETURN_STACK_IMBALANCE: Exception = Exception::ReturnStackImbalance;

/// = -26, ANS Forth
pub const LOOP_PARAMETERS_UNAVAILABLE: Exception = Exception::LoopParametersUnavailable;

/// = -27, ANS Forth
pub const INVALID_RECURSION: Exception = Exception::InvalidRecursion;

/// = -28, ANS Forth
pub const USER_INTERRUPT: Exception = Exception::UserInterrupt;

/// = -29, ANS Forth
pub const COMPILER_NESTING: Exception = Exception::CompilerNesting;

/// = -30, ANS Forth
pub const OBSOLESCENT_FEATURE: Exception = Exception::ObsolescentFeature;

/// = -31, ANS Forth
pub const TO_BODY_USED_ON_NON_CREATED_DEFINITION: Exception = Exception::ToBodyUsedOnNonCreatedDefinition;

/// = -32, ANS Forth
pub const INVALID_NAME_ARGUMENT: Exception = Exception::InvalidNameArgument;

/// = -33, ANS Forth
pub const BLOCK_READ_EXCEPTION: Exception = Exception::BlockReadException;

/// = -34, ANS Forth
pub const BLOCK_WRITE_EXCEPTION: Exception = Exception::BlockWriteException;

/// = -35, ANS Forth
pub const INVALID_BLOCK_NUMBER: Exception = Exception::InvalidBlockNumber;

/// = -36, ANS Forth
pub const INVALID_FILE_POSITION: Exception = Exception::InvalidFilePosition;

/// = -37, ANS Forth
pub const FILE_IO_EXCEPTION: Exception = Exception::FileIoException;

/// = -38, ANS Forth
pub const NON_EXISTENT_FILE: Exception = Exception::NonExistentFile;

/// = -39, ANS Forth
pub const UNEXPECTED_END_OF_FILE: Exception = Exception::UnexpectedEndOfFile;

/// = -40, ANS Forth
pub const INVALID_BASE_FOR_FLOATING_POINT_CONVERSION: Exception = Exception::InvalidBaseForFloatingPointConversion;

/// = -41, ANS Forth
pub const LOSS_OF_PRECISION: Exception = Exception::LossOfPrecision;

/// = -42, ANS Forth
pub const FLOATING_POINT_DIVIDED_BY_ZERO: Exception = Exception::FloatingPointDividedByZero;

/// = -43, ANS Forth
pub const FLOATING_POINT_RESULT_OUT_OF_RANGE: Exception = Exception::FloatingPointResultOutOfRange;

/// = -44, ANS Forth
pub const FLOATING_POINT_STACK_OVERFLOW: Exception = Exception::FloatingPointStackOverflow;

/// = -45, ANS Forth
pub const FLOATING_POINT_STACK_UNDERFLOW: Exception = Exception::FloatingPointStackUnderflow;

/// = -46, ANS Forth
pub const FLOATING_POINT_INVALID_ARGUMENT: Exception = Exception::FloatingPointInvalidArgument;

/// = -47, ANS Forth
pub const COMPILATION_WORD_LIST_DELETED: Exception = Exception::CompilationWordListDeleted;

/// = -48, ANS Forth
pub const INVALID_POSTPONE: Exception = Exception::InvalidPostpone;

/// = -49, ANS Forth
pub const SEARCH_ORDER_OVERFLOW: Exception = Exception::SearchOrderOverflow;

/// = -50, ANS Forth
pub const SEARCH_ORDER_UNDERFLOW: Exception = Exception::SearchOrderUnderflow;

/// = -51, ANS Forth
pub const COMPILATION_WORD_LIST_CHANGED: Exception = Exception::CompilationWordListChanged;

/// = -52, ANS Forth
pub const CONTROL_FLOW_STACK_OVERFLOW: Exception = Exception::ControlFlowStackOverflow;

/// = -53, ANS Forth
pub const EXCEPTION_STACK_OVERFLOW: Exception = Exception::ExceptionStackOverflow;

/// = -54, ANS Forth
pub const FLOATING_POINT_UNDERFLOW: Exception = Exception::FloatingPointUnderflow;

/// = -55, ANS Forth
pub const FLOATING_POINT_UNIDENTIFIED_FAULT: Exception = Exception::FloatingPointUnidentifiedFault;

/// = -56, ANS Forth
pub const QUIT: Exception = Exception::Quit;

/// = -57, ANS Forth
pub const EXCEPTION_IN_SENDING_OR_RECEIVING_A_CHARACTER: Exception = Exception::ExceptionInSendingOrReceivingACharacter;

/// = -58, ANS Forth
pub const BRACKET_IF_ELSE_OR_THEN_EXCEPTION: Exception = Exception::BracketIfElseOrThenException;

/// The text that describes exception `e`.
pub open spec fn description_text(e: Exception) -> Seq<char> {
    match e {
        Exception::Abort => "Aborted"@,
        Exception::AbortQuote => "Aborted"@,
        Exception::StackOverflow => "Stack overflow"@,
        Exception::StackUnderflow => "Stack underflow"@,
        Exception::ReturnStackOverflow => "Return stack overflow"@,
        Exception::ReturnStackUnderflow => "Return stack underflow"@,
        Exception::DoLoopNestedTooDeeply => "Do-loop nested too deeply"@,
        Exception::DictionaryOverflow => "Dictionary overflow"@,
        Exception::InvalidMemoryAddress => "Invalid memory address"@,
        Exception::DivisionByZero => "Division by zero"@,
        Exception::ResultOutOfRange => "Result out of range"@,
        Exception::ArgumentTypeMismatch => "Argument type mismatch"@,
        Exception::UndefinedWord => "Undefined word"@,
        Exception::InterpretingACompileOnlyWord => "Interpreting a compile only word"@,
        Exception::InvalidForget => "Invalid FORGET"@,
        Exception::AttemptToUseZeroLengthString => "Attempt to use zero length string"@,
        Exception::PicturedNumericOutputStringOverflow => "Picture numeric output string overflow"@,
        Exception::ParsedStringOverflow => "Parsed string overflow"@,
        Exception::DefinitionNameTooLong => "Definition name too long"@,
        Exception::WriteToAReadOnlyLocation => "Write to a read only location"@,
        Exception::UnsupportedOperation => "Unsupported operation"@,
        Exception::ControlStructureMismatch => "Control structure mismatch"@,
        Exception::AddressAlignmentException => "Address alignment exception"@,
        Exception::InvalidNumericArgument => "Invalid numeric argument"@,
        Exception::ReturnStackImbalance => "Return stack imbalance"@,
        Exception::LoopParametersUnavailable => "Loop parameters unavailable"@,
        Exception::InvalidRecursion => "Invalid recursion"@,
        Exception::UserInterrupt => "User interrupt"@,
        Exception::CompilerNesting => "Compiler nesting"@,
        Exception::ObsolescentFeature => "Obsolescent feature"@,
        Exception::ToBodyUsedOnNonCreatedDefinition => ">BODY used on non-CREATEd definition"@,
        Exception::InvalidNameArgument => "Invalid name argument"@,
        Exception::BlockReadException => "Block read exception"@,
        Exception::BlockWriteException => "Block write exception"@,
        Exception::InvalidBlockNumber => "Invalid block number"@,
        Exception::InvalidFilePosition => "Invalid file position"@,
        Exception::FileIoException => "File I/O exception"@,
        Exception::NonExistentFile => "Non-existent file"@,
        Exception::UnexpectedEndOfFile => "Unexpected end of file"@,
        Exception::InvalidBaseForFloatingPointConversion => "Invalid BASE for floating point conversion"@,
        Exception::LossOfPrecision => "Loss of precision"@,
        Exception::FloatingPointDividedByZero => "Floating point divided by zero"@,
        Exception::FloatingPointResultOutOfRange => "Floating point result out of range"@,
        Exception::FloatingPointStackOverflow => "Floating point stack overflow"@,
        Exception::FloatingPointStackUnderflow => "Floating point stack underflow"@,
        Exception::FloatingPointInvalidArgument => "Floating point invalid argument"@,
        Exception::CompilationWordListDeleted => "Compilation word list deleted"@,
        Exception::InvalidPostpone => "Invalid POSTPONE"@,
        Exception::SearchOrderOverflow => "Search order overflow"@,
        Exception::SearchOrderUnderflow => "Search order underflow"@,
        Exception::CompilationWordListChanged => "Compilation word list changed"@,
        Exception::ControlFlowStackOverflow => "Control flow stack overflow"@,
        Exception::ExceptionStackOverflow => "Exception stack overflow"@,
        Exception::FloatingPointUnderflow => "Floating point underflow"@,
        Exception::FloatingPointUnidentifiedFault => "Floating point unidentified fault"@,
        Exception::Quit => "QUIT"@,
        Exception::ExceptionInSendingOrReceivingACharacter => "Exception in sending or receiving a character"@,
        Exception::BracketIfElseOrThenException => "[IF],[ELSE],[THEN] exception"@,
    }
}

/// Description of the exception.
pub fn description(e: Exception) -> (r: &'static str)
    ensures
        r@ == description_text(e),
{
    match e {
        Exception::Abort => "Aborted",
        Exception::AbortQuote => "Aborted",
        Exception::StackOverflow => "Stack overflow",
        Exception::StackUnderflow => "Stack underflow",
        Exception::ReturnStackOverflow => "Return stack overflow",
        Exception::ReturnStackUnderflow => "Return stack underflow",
        Exception::DoLoopNestedTooDeeply => "Do-loop nested too deeply",
        Exception::DictionaryOverflow => "Dictionary overflow",
        Exception::InvalidMemoryAddress => "Invalid memory address",
        Exception::DivisionByZero => "Division by zero",
        Exception::ResultOutOfRange => "Result out of range",
        Exception::ArgumentTypeMismatch => "Argument type mismatch",
        Exception::UndefinedWord => "Undefined word",
        Exception::InterpretingACompileOnlyWord => "Interpreting a compile only word",
        Exception::InvalidForget => "Invalid FORGET",
        Exception::AttemptToUseZeroLengthString => "Attempt to use zero length string",
        Exception::PicturedNumericOutputStringOverflow => "Picture numeric output string overflow",
        Exception::ParsedStringOverflow => "Parsed string overflow",
        Exception::DefinitionNameTooLong => "Definition name too long",
        Exception::WriteToAReadOnlyLocation => "Write to a read only location",
        Exception::UnsupportedOperation => "Unsupported operation",
        Exception::ControlStructureMismatch => "Control structure mismatch",
        Exception::AddressAlignmentException => "Address alignment exception",
        Exception::InvalidNumericArgument => "Invalid numeric argument",
        Exception::ReturnStackImbalance => "Return stack imbalance",
        Exception::LoopParametersUnavailable => "Loop parameters unavailable",
        Exception::InvalidRecursion => "Invalid recursion",
        Exception::UserInterrupt => "User interrupt",
        Exception::CompilerNesting => "Compiler nesting",
        Exception::ObsolescentFeature => "Obsolescent feature",
        Exception::ToBodyUsedOnNonCreatedDefinition => ">BODY used on non-CREATEd definition",
        Exception::InvalidNameArgument => "Invalid name argument",
        Exception::BlockReadException => "Block read exception",
        Exception::BlockWriteException => "Block write exception",
        Exception::InvalidBlockNumber => "Invalid block number",
        Exception::InvalidFilePosition => "Invalid file position",
        Exception::FileIoException => "File I/O exception",
        Exception::NonExistentFile => "Non-existent file",
        Exception::UnexpectedEndOfFile => "Unexpected end of file",
        Exception::InvalidBaseForFloatingPointConversion => "Invalid BASE for floating point conversion",
        Exception::LossOfPrecision => "Loss of precision",
        Exception::FloatingPointDividedByZero => "Floating point divided by zero",
        Exception::FloatingPointResultOutOfRange => "Floating point result out of range",
        Exception::FloatingPointStackOverflow => "Floating point stack overflow",
        Exception::FloatingPointStackUnderflow => "Floating point stack underflow",
        Exception::FloatingPointInvalidArgument => "Floating point invalid argument",
        Exception::CompilationWordListDeleted => "Compilation word list deleted",
        Exception::InvalidPostpone => "Invalid POSTPONE",
        Exception::SearchOrderOverflow => "Search order overflow",
        Exception::SearchOrderUnderflow => "Search order underflow",
        Exception::CompilationWordListChanged => "Compilation word list changed",
        Exception::ControlFlowStackOverflow => "Control flow stack overflow",
        Exception::ExceptionStackOverflow => "Exception stack overflow",
        Exception::FloatingPointUnderflow => "Floating point underflow",
        Exception::FloatingPointUnidentifiedFault => "Floating point unidentified fault",
        Exception::Quit => "QUIT",
        Exception::ExceptionInSendingOrReceivingACharacter => "Exception in sending or receiving a character",
        Exception::BracketIfElseOrThenException => "[IF],[ELSE],[THEN] exception",
    }
}

} // verus!
