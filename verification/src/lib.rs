//! An ERC20 token record: a contract address bound to a chain client, with
//! the token's name, symbol and decimals, and the rules by which a batched
//! metadata query is built and its reply is taken into the record.
//!
//! The library performs no I/O. A caller sends the batch that
//! [`Erc20::sync_request`] describes and hands the reply to [`Erc20::sync`].

pub mod address;
pub mod batch;
pub mod laws;
pub mod reply;
pub mod token;
pub mod uint;

pub use address::{checksum_text, Address};
pub use batch::{Batch, BatchedCall, Call, Getter};
pub use reply::{CallResult, SyncError, Value};
pub use token::{is_decodable, render, Erc20, Record};
pub use uint::{convert_u256_to_u8, U256};
