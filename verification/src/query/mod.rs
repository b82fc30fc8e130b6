pub mod evaluator;
pub mod lexer;
pub mod number;
pub mod parser;
pub mod wildcard;
