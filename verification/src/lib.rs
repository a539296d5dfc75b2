pub mod cli;
pub mod config;
pub mod engine;
pub mod errors;
pub mod sample;
pub mod voice;
