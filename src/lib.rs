//! Remote execution and file transfer between a local host and SSH-reachable
//! machines: the decision and bookkeeping layer, with its contracts.
pub mod chunks;
pub mod connection;
pub mod error;
pub mod exec;
pub mod machine;
pub mod manager;
pub mod response;
pub mod scp;
pub mod shell;
pub mod text;
pub mod tscp;
