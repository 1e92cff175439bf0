//! The parser: functions from a position in a token list to a parsed construct and the
//! position after it, or an error.
//!
//! Each parsing function `f` has a specification `spec_f` that says what it returns for every
//! token list, and each successful parse moves forward through the tokens. The grammar is
//! recursive, so most specifications are recursive too; they are opaque, and each parsing
//! function reveals its own specification and those of the steps it takes, which keeps every
//! proof to one step of the grammar.
pub mod array;
pub mod class;
pub mod control;
pub mod enum_;
pub mod expression;
pub mod function;
pub mod global;
pub mod identifier;
pub mod operator;
pub mod preprocessed;
pub mod result;
pub mod statement;
pub mod struct_;
pub mod table;
pub mod token_list;
pub mod token_list_ext;
pub mod type_;
pub mod variable;
