//! Lexical front-end for converting LaTeX-style mathematical notation into a
//! structured markup tree: a character-level scanner producing tokens, a
//! symbol classification scheme, an arena-based allocation strategy for the
//! downstream tree, and a structured error model.

pub mod arena;
pub mod ast;
pub mod attribute;
pub mod commands;
pub mod error;
pub mod lexer;
pub mod ops;
mod strbuf;
pub mod token;
