//! A small Python-like language: a tokenizer, an expression parser, a bytecode
//! compiler and a reference-counted object runtime that executes the bytecode.

pub mod text;
pub mod lexer;
pub mod parser;
pub mod compiler;
pub mod runtime;
pub mod instructions;
