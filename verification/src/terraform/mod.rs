pub mod state;
pub mod cli;
