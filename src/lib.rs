//! The service fabric of a Bitcoin–Monero atomic swap daemon: the bus lanes and message
//! families, the syncer's and the wallet's handlers, the frame and checkpoint encodings,
//! and the replies to the command-line client.

pub mod bus;
pub mod bytes;
pub mod checkpoint;
pub mod frame;
pub mod keys;
pub mod rpc;
pub mod service;
pub mod sync;
pub mod syncer;
pub mod varint;
pub mod wallet;
