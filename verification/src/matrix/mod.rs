pub mod config;
pub mod event;
pub mod html;
