//! A Forth interpreter core whose data structures, parsers and compiler are
//! specified and proved with Verus.

pub mod exception;
pub mod parser;
pub mod kernel;
pub mod memory;
pub mod codespace;
pub mod jitmem;
pub mod threading;
pub mod term;
pub mod arith;
pub mod vm;
pub mod stack_words;
pub mod memory_words;
pub mod control;
pub mod compiler;
pub mod outer;
pub mod defining;
pub mod interp;
pub mod dictionary;
pub mod laws;
pub mod format;
pub mod tools;
pub mod loader;
pub mod facility;
pub mod float_data;
pub mod stack_laws;
