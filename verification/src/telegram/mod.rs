pub mod action;
pub mod bot;
pub mod client;
pub mod event;
pub mod markdown;
pub mod types;
pub mod utf16;
