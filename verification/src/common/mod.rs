pub mod component;
pub mod embed;
pub mod extract;
pub mod path;
pub mod response;
pub mod router;
pub mod tls;
pub mod action;
pub mod bounds;
pub mod error;
pub mod responder;
