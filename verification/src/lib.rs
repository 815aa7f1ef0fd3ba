//! A small register machine and the assembler for its bytecode.
//!
//! - [`opcode`] and [`instruction`]: the instruction set.
//! - [`assembler`]: source text to code words of four bytes.
//! - [`vm`]: the machine that executes them.
//! - [`repl`]: the logic of a console over both.
//! - [`text`]: characters, words and numbers.

pub mod assembler;
pub mod instruction;
pub mod opcode;
pub mod repl;
pub mod text;
pub mod vm;
