pub mod cli;
pub mod config;
pub mod engine;
pub mod error;
pub mod ids;
pub mod json;
pub mod lookup;
pub mod mcp;
pub mod protocol;
pub mod seqs;
pub mod server;
pub mod text;
pub mod text_laws;
pub mod worker;
