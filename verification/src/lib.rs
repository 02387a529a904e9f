//! Core data structures of a Lean 4 front end: hierarchical names, universe
//! levels, syntax trees, the lexer, and the `.olean` region reader.
pub mod hash;
pub mod text;
pub mod name;
pub mod name_order;
pub mod level;
pub mod level_ops;
pub mod level_norm;
pub mod level_display;
pub mod span;
pub mod node_kind;
pub mod syntax;
pub mod keyword;
pub mod token;
pub mod lexer;
pub mod olean_error;
pub mod olean_header;
pub mod region;
pub mod level_laws;
pub mod name_laws;
pub mod literal;
pub mod expr;
pub mod expr_subst;
pub mod expr_eq;
pub mod expr_display;
pub mod expr_laws;
pub mod constant_info;
pub mod quot;
pub mod tokkind;
pub mod parser;
pub mod parse_expr;
pub mod parse_command;
pub mod pratt;
pub mod kernel_error;
pub mod environment;
pub mod deserialize;
pub mod olean;
pub mod expr_checks;
pub mod type_checker;
pub mod stats;
pub mod module_files;
pub mod interp;
pub mod eval;
pub mod word_builtins;
