pub mod args;
pub mod context;
pub mod inject;
pub mod outbound;
pub mod transport;
pub mod wire;
