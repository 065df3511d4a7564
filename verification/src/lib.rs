//! Invoice layout and records, with verified contracts.
pub mod invoice;
pub mod layout;
pub mod rpc;
pub mod session;
pub mod text;
