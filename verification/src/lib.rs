//! A small stack machine and the syntax tree of the language that is to run
//! on it.
//!
//! [`vm::VM`] executes a fixed program of [`bytecode::Instruction`]s over one
//! address space: a heap from address 0 on and a stack from a fixed high
//! address on. Every operation either takes effect as a whole or faults and
//! leaves the stack and the memory untouched. What an operation does is
//! stated over the model in [`vm::machine`] and [`vm::semantics`], and
//! [`vm::laws`] holds what follows for all machines.
//!
//! Floating point arithmetic, input and output are the work of the host that
//! steps the machine: see [`vm::host`].
//!
//! [`compiler::syntaxes`] reads a source text into the tree of [`ast`]; what
//! it reads is stated by the grammar in [`compiler::syntaxes::grammar`].

pub mod ast;
pub mod bytecode;
pub mod compiler;
pub mod vm;
