pub mod adapter;
pub mod channel;
pub mod endpoint;
pub mod errors;
pub mod events;
pub mod exchange;
