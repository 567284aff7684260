pub mod ast;
pub mod commands;
pub mod environment;
pub mod interpreter;
pub mod errors;
pub mod laws;
pub mod lexer;
pub mod parser;
pub mod tokens;
pub mod utils;
