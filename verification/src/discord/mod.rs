pub mod bot;
pub mod client;
pub mod component;
pub mod event;
pub mod gateway;
pub mod intents;
pub mod types;
