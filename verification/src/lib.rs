pub mod eth;
pub mod rpc;
