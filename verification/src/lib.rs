//! Typed requests and replies for the block chain calls of a Bitcoin node's
//! JSON-RPC interface.
//!
//! The library says what each call sends and what each answer means; it does
//! no sending itself. A call is made in three steps: the handle,
//! [`BitcoinRpc`], builds the [`Request`]; the request travels to the server
//! over the handle's connection; and the handle reads what came back, given
//! to it as a [`Reply`], as the value that the call returns or as the
//! [`RpcError`] that tells why there is none.

pub mod block;
pub mod chain;
pub mod client;
pub mod error;
pub mod field;
pub mod json;
pub mod mempool;
pub mod reply;
pub mod shape;
pub mod text;
pub mod txout;

pub use block::{Block, GetBlockReply, SerializedBlock};
pub use chain::{BlockChainInfo, ChainTips, Tip};
pub use client::BitcoinRpc;
pub use error::{DecodeError, RpcError};
pub use field::Real;
pub use json::Json;
pub use mempool::{MemPoolInfo, RawMemPool, TxDescription, TXIDS};
pub use reply::{Reply, Request};
pub use shape::Shape;
pub use txout::{ScriptPubKey, TxOut, TxOutSetInfo};
