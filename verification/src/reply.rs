//! What a batch brings back: decoded return values, and the ways in which a
//! whole batch fails.

use crate::uint::U256;
use vstd::prelude::*;

verus! {

/// A decoded return value of a contract call.
#[derive(Debug)]
pub enum Value {
    /// An ABI `string`.
    String(String),
    /// An ABI unsigned integer of any width.
    Uint(U256),
    /// A value of any other ABI type.
    Other,
}

impl Value {
    /// The text, where the value is a string.
    pub fn into_string(self) -> (text: Option<String>)
        ensures
            text == match self {
                Value::String(s) => Some(s),
                _ => None,
            },
    {
        match self {
            Value::String(s) => Some(s),
            _ => None,
        }
    }

    /// The integer, where the value is an unsigned integer.
    pub fn into_uint(self) -> (word: Option<U256>)
        ensures
            word == match self {
                Value::Uint(w) => Some(w),
                _ => None,
            },
    {
        match self {
            Value::Uint(w) => Some(w),
            _ => None,
        }
    }
}

/// What one call of a batch produced, in the batch's order: the decoded
/// value, or the raw return data of a call that failed or returned nothing.
pub type CallResult = Result<Value, Vec<u8>>;

/// Why a batch as a whole brought nothing back.
#[derive(Debug)]
pub enum SyncError {
    /// No aggregator contract is known for the chain with this id.
    InvalidChainId(u64),
    /// A call that was not allowed to fail reverted.
    IllegalRevert,
    /// The round trip to the node failed, or its answer could not be read.
    Contract(String),
}

} // verus!
