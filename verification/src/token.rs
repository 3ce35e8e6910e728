//! The token record: accessors with their defaults, the metadata calls, the
//! textual forms, and the refresh from a batch's reply.

use crate::address::{checksum_text, to_checksum, Address};
use crate::batch::{Batch, BatchedCall, Call, Getter};
use crate::reply::{CallResult, SyncError, Value};
use crate::uint::convert_u256_to_u8;
use ethers_core::types::Chain;
use std::sync::Arc;
use vstd::prelude::*;
use vstd::string::*;

verus! {

/// An ERC20 token: a contract at a fixed address, reached through a fixed
/// client, and what is known of its metadata. A field that is `None` is not
/// known yet. A refresh fills a field or gives it a newly fetched value; it
/// never empties one.
pub struct Erc20<M> {
    client: Arc<M>,
    address: Address,
    /// The token's name.
    pub name: Option<String>,
    /// The token's symbol.
    pub symbol: Option<String>,
    /// The token's decimals.
    pub decimals: Option<u8>,
}

/// A token record as the contracts speak of it.
pub struct Record<M> {
    pub client: Arc<M>,
    pub address: Address,
    pub name: Option<Seq<char>>,
    pub symbol: Option<Seq<char>>,
    pub decimals: Option<u8>,
}

impl<M> View for Erc20<M> {
    type V = Record<M>;

    closed spec fn view(&self) -> Record<M> {
        Record {
            client: self.client,
            address: self.address,
            name: match self.name {
                Some(s) => Some(s@),
                None => None,
            },
            symbol: match self.symbol {
                Some(s) => Some(s@),
                None => None,
            },
            decimals: self.decimals,
        }
    }
}

/// The default form with no address, and with one the extended form.
pub open spec fn rendered(name: Seq<char>, symbol: Seq<char>, address: Option<Seq<char>>) -> Seq<
    char,
> {
    let short = name + " ("@ + symbol + ")"@;
    match address {
        Some(a) => short + " @ "@ + a,
        None => short,
    }
}

/// The name or symbol that a returned value gives: its text where it is a
/// string, nothing otherwise.
pub open spec fn text_of(value: Value) -> Option<Seq<char>> {
    match value {
        Value::String(s) => Some(s@),
        _ => None,
    }
}

/// The decimals that a returned value gives: the number where it is an
/// unsigned integer of at most 255, nothing otherwise.
pub open spec fn byte_of(value: Value) -> Option<u8> {
    match value {
        Value::Uint(w) => if w@ <= 255 {
            Some(w@ as u8)
        } else {
            None
        },
        _ => None,
    }
}

/// Whether none of the first three results is a failed call.
pub open spec fn decodable(results: Seq<CallResult>) -> bool {
    forall|i: int| 0 <= i < results.len() && i < 3 ==> (#[trigger] results[i]) is Ok
}

impl<M> Record<M> {
    /// The record of a token of which no metadata is known.
    pub open spec fn empty(client: Arc<M>, address: Address) -> Record<M> {
        Record { client, address, name: None, symbol: None, decimals: None }
    }

    /// The record of a token whose metadata is known beforehand.
    pub open spec fn preloaded(
        client: Arc<M>,
        address: Address,
        name: Seq<char>,
        symbol: Seq<char>,
        decimals: u8,
    ) -> Record<M> {
        Record { client, address, name: Some(name), symbol: Some(symbol), decimals: Some(decimals) }
    }

    /// The name, or `unknown`.
    pub open spec fn display_name(self) -> Seq<char> {
        match self.name {
            Some(s) => s,
            None => "unknown"@,
        }
    }

    /// The symbol, or `unknown`.
    pub open spec fn display_symbol(self) -> Seq<char> {
        match self.symbol {
            Some(s) => s,
            None => "unknown"@,
        }
    }

    /// The decimals, or 18.
    pub open spec fn display_decimals(self) -> u8 {
        match self.decimals {
            Some(d) => d,
            None => 18,
        }
    }

    /// The three read calls against the contract: name, symbol, decimals.
    pub open spec fn metadata(self) -> (Call, Call, Call) {
        (
            Call { target: self.address, function: Getter::Name },
            Call { target: self.address, function: Getter::Symbol },
            Call { target: self.address, function: Getter::Decimals },
        )
    }

    /// The three calls as a batch holds them, each allowed to fail.
    pub open spec fn metadata_calls(self) -> Seq<BatchedCall> {
        seq![
            BatchedCall { call: self.metadata().0, allow_failure: true },
            BatchedCall { call: self.metadata().1, allow_failure: true },
            BatchedCall { call: self.metadata().2, allow_failure: true },
        ]
    }

    /// The textual form: the default one, or with `alternate` the extended
    /// one, which ends in the checksummed contract address.
    pub open spec fn text(self, alternate: bool) -> Seq<char> {
        rendered(
            self.display_name(),
            self.display_symbol(),
            if alternate {
                Some(checksum_text(self.address@))
            } else {
                None
            },
        )
    }

    /// The record after a reply: position 0 gives the name, 1 the symbol, 2
    /// the decimals. A field takes the returned value where there is a usable
    /// one. Where the reply lacks the position, the value is of another type,
    /// or the decimals are above 255, the field stays as it was. Client and
    /// address stay.
    pub open spec fn synced(self, results: Seq<CallResult>) -> Record<M> {
        Record {
            client: self.client,
            address: self.address,
            name: if 0 < results.len() && text_of(results[0].unwrap()) is Some {
                text_of(results[0].unwrap())
            } else {
                self.name
            },
            symbol: if 1 < results.len() && text_of(results[1].unwrap()) is Some {
                text_of(results[1].unwrap())
            } else {
                self.symbol
            },
            decimals: if 2 < results.len() && byte_of(results[2].unwrap()) is Some {
                byte_of(results[2].unwrap())
            } else {
                self.decimals
            },
        }
    }
}

/// Writes `<name> (<symbol>)`, followed by ` @ <address>` where an address
/// text is given.
pub fn render(name: &str, symbol: &str, address: Option<&str>) -> (text: String)
    ensures
        text@ == rendered(
            name@,
            symbol@,
            match address {
                Some(a) => Some(a@),
                None => None,
            },
        ),
{
    let mut text = String::from_str(name);
    text.append(" (");
    text.append(symbol);
    text.append(")");
    if let Some(a) = address {
        text.append(" @ ");
        text.append(a);
    }
    text
}

/// Tells whether none of the first three results is a failed call, which is
/// what [`Erc20::sync`] asks of a reply.
pub fn is_decodable(results: &Vec<CallResult>) -> (ok: bool)
    ensures
        ok == decodable(results@),
{
    let mut i: usize = 0;
    while i < results.len() && i < 3
        invariant
            i <= results.len(),
            i <= 3,
            forall|j: int| 0 <= j < i ==> (#[trigger] results@[j]) is Ok,
        decreases results.len() - i,
    {
        if results[i].is_err() {
            return false;
        }
        i += 1;
    }
    true
}

impl<M> Erc20<M> {
    /// The token's name. Defaults to `unknown` if not synced or not present.
    pub fn name(&self) -> (text: &str)
        ensures
            text@ == self@.display_name(),
    {
        match &self.name {
            Some(s) => s.as_str(),
            None => "unknown",
        }
    }

    /// The token's symbol. Defaults to `unknown` if not synced or not
    /// present.
    pub fn symbol(&self) -> (text: &str)
        ensures
            text@ == self@.display_symbol(),
    {
        match &self.symbol {
            Some(s) => s.as_str(),
            None => "unknown",
        }
    }

    /// The token's name as far as it is known, with no default.
    pub fn fetched_name(&self) -> (text: Option<&str>)
        ensures
            match text {
                Some(s) => self@.name == Some(s@),
                None => self@.name is None,
            },
    {
        match &self.name {
            Some(s) => Some(s.as_str()),
            None => None,
        }
    }

    /// The token's symbol as far as it is known, with no default.
    pub fn fetched_symbol(&self) -> (text: Option<&str>)
        ensures
            match text {
                Some(s) => self@.symbol == Some(s@),
                None => self@.symbol is None,
            },
    {
        match &self.symbol {
            Some(s) => Some(s.as_str()),
            None => None,
        }
    }

    /// The token's decimals as far as they are known, with no default.
    pub fn fetched_decimals(&self) -> (digits: Option<u8>)
        ensures
            digits == self@.decimals,
    {
        self.decimals
    }

    /// The token's decimals. Defaults to 18 if not synced or not present.
    pub fn decimals(&self) -> (digits: u8)
        ensures
            digits == self@.display_decimals(),
    {
        match self.decimals {
            Some(d) => d,
            None => 18,
        }
    }

    /// Creates a new, empty token.
    pub fn new(client: Arc<M>, address: Address) -> (token: Erc20<M>)
        ensures
            token@ == Record::empty(client, address),
    {
        Erc20 { client, address, name: None, symbol: None, decimals: None }
    }

    /// Creates a new token with the provided metadata.
    pub fn new_with_metadata(
        client: Arc<M>,
        address: Address,
        name: String,
        symbol: String,
        decimals: u8,
    ) -> (token: Erc20<M>)
        ensures
            token@ == Record::preloaded(client, address, name@, symbol@, decimals),
    {
        Erc20 { client, address, name: Some(name), symbol: Some(symbol), decimals: Some(decimals) }
    }

    /// The client through which the contract is reached.
    pub fn client(&self) -> (client: &Arc<M>)
        ensures
            *client == self@.client,
    {
        &self.client
    }

    /// The contract's address.
    pub fn address(&self) -> (address: Address)
        ensures
            address == self@.address,
    {
        self.address
    }

    /// The token in text: `<name> (<symbol>)`, and with `alternate` also
    /// ` @ ` and the contract's checksummed address.
    pub fn fmt(&self, alternate: bool) -> (text: String)
        ensures
            text@ == self@.text(alternate),
    {
        if alternate {
            let address = to_checksum(&self.address);
            render(self.name(), self.symbol(), Some(address.as_str()))
        } else {
            render(self.name(), self.symbol(), None)
        }
    }

    /// Returns the contract calls for fetching the token's name, symbol and
    /// decimals. Nothing is sent; what the record holds plays no part.
    pub fn metadata(&self) -> (calls: (Call, Call, Call))
        ensures
            calls == self@.metadata(),
    {
        (
            Call { target: self.address, function: Getter::Name },
            Call { target: self.address, function: Getter::Symbol },
            Call { target: self.address, function: Getter::Decimals },
        )
    }

    /// Adds the getter calls to the provided batch: name, symbol, decimals,
    /// in this order and each allowed to fail, behind what the batch held.
    pub fn add_metadata<'m>(&self, batch: &'m mut Batch) -> (filled: &'m mut Batch)
        ensures
            filled.chain == old(batch).chain,
            filled.calls@ == old(batch).calls@ + self@.metadata_calls(),
            *final(batch) == *final(filled),
    {
        let (name, symbol, decimals) = self.metadata();
        batch.add_call(name, true).add_call(symbol, true).add_call(decimals, true)
    }

    /// The batch that a refresh sends: a fresh one for `chain`, holding the
    /// three metadata calls and nothing else.
    pub fn sync_request(&self, chain: Chain) -> (batch: Batch)
        ensures
            batch.chain == chain,
            batch.calls@ == self@.metadata_calls(),
    {
        let mut batch = Batch::new(chain);
        self.add_metadata(&mut batch);
        batch
    }

    /// Syncs the token's name, symbol and decimals from the reply to the
    /// batch of [`Erc20::sync_request`].
    ///
    /// A failed batch changes nothing and its cause is handed back. Of a
    /// reply, the first three results are taken in the order name, symbol,
    /// decimals, as [`Record::synced`] says: a field is filled or
    /// overwritten where the reply holds a usable value for it, and is left
    /// as it was otherwise. None of these three may be a failed call:
    /// [`is_decodable`] tells.
    pub fn sync(&mut self, reply: Result<Vec<CallResult>, SyncError>) -> (outcome: Result<
        &mut Self,
        SyncError,
    >)
        requires
            reply matches Ok(results) ==> decodable(results@),
        ensures
            match reply {
                Ok(results) => outcome matches Ok(token) && token@ == old(self)@.synced(results@)
                    && *final(self) == *final(token),
                Err(cause) => outcome matches Err(e) && e == cause && *final(self) == *old(self),
            },
    {
        match reply {
            Ok(results) => {
                let mut results = results;
                if results.len() > 0 {
                    let value = results.remove(0).unwrap();
                    if let Some(name) = value.into_string() {
                        self.name = Some(name);
                    }
                }
                if results.len() > 0 {
                    let value = results.remove(0).unwrap();
                    if let Some(symbol) = value.into_string() {
                        self.symbol = Some(symbol);
                    }
                }
                if results.len() > 0 {
                    let value = results.remove(0).unwrap();
                    if let Some(decimals) = convert_u256_to_u8(value.into_uint()) {
                        self.decimals = Some(decimals);
                    }
                }
                Ok(self)
            },
            Err(cause) => Err(cause),
        }
    }
}

} // verus!
