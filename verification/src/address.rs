//! Contract addresses and their checksummed text.

use vstd::prelude::*;

verus! {

/// A 20-byte account or contract address.
#[derive(Clone, Copy, Debug, PartialEq, Eq)]
pub struct Address(pub [u8; 20]);

impl View for Address {
    type V = Seq<u8>;

    open spec fn view(&self) -> Seq<u8> {
        self.0@
    }
}

/// The EIP-55 mixed-case text of the address with these bytes, as
/// `ethers_core::utils::to_checksum` writes it for no chain id.
pub uninterp spec fn checksum_text(address: Seq<u8>) -> Seq<char>;

/// `ethers_core::utils::to_checksum` on the address, with no chain id.
/// Trusted: the text is a function of the twenty bytes alone, and
/// [`checksum_text`] is its name.
#[verifier::external_body]
pub(crate) fn to_checksum(address: &Address) -> (text: String)
    ensures
        text@ == checksum_text(address@),
{
    ethers_core::utils::to_checksum(&ethers_core::types::H160(address.0), None)
}

} // verus!
