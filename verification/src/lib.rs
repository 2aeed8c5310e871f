pub mod cli;
pub mod common;
pub mod discord;
pub mod matrix;
pub mod telegram;
pub mod text;
