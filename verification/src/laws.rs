//! What holds of every token record, stated over [`Record`] and proved.

use crate::address::Address;
use crate::batch::Getter;
use crate::reply::{CallResult, Value};
use crate::token::{byte_of, text_of, Record};
use crate::uint::U256;
use std::sync::Arc;
use vstd::prelude::*;

verus! {

/// A record made with metadata shows exactly that metadata, never a
/// default.
pub proof fn preloaded_metadata_is_shown<M>(
    client: Arc<M>,
    address: Address,
    name: Seq<char>,
    symbol: Seq<char>,
    decimals: u8,
)
    ensures
        Record::preloaded(client, address, name, symbol, decimals).display_name() == name,
        Record::preloaded(client, address, name, symbol, decimals).display_symbol() == symbol,
        Record::preloaded(client, address, name, symbol, decimals).display_decimals() == decimals,
{
}

/// A record made without metadata shows `unknown` for its name and its
/// symbol, and 18 decimals.
pub proof fn empty_record_shows_defaults<M>(client: Arc<M>, address: Address)
    ensures
        Record::empty(client, address).display_name() == "unknown"@,
        Record::empty(client, address).display_symbol() == "unknown"@,
        Record::empty(client, address).display_decimals() == 18,
{
}

/// The metadata calls of a record are three, for name, symbol and decimals
/// in this order, each against the record's contract and each allowed to
/// fail. They depend on the address alone: two records of one contract ask
/// the same, whatever metadata either holds.
pub proof fn metadata_calls_are_fixed<M>(record: Record<M>, other: Record<M>)
    ensures
        record.metadata_calls().len() == 3,
        record.metadata_calls()[0].call.function == Getter::Name,
        record.metadata_calls()[1].call.function == Getter::Symbol,
        record.metadata_calls()[2].call.function == Getter::Decimals,
        forall|i: int|
            0 <= i < 3 ==> (#[trigger] record.metadata_calls()[i]).allow_failure
                && record.metadata_calls()[i].call.target == record.address,
        other.address == record.address ==> other.metadata_calls() == record.metadata_calls(),
{
}

/// Returned decimals of at most 255 become the record's decimals; larger
/// ones leave the decimals as they were, so that a record without decimals
/// stays without.
pub proof fn decimals_are_narrowed<M>(record: Record<M>, results: Seq<CallResult>, raw: U256)
    requires
        results.len() >= 3,
        results[2] == Ok::<Value, Vec<u8>>(Value::Uint(raw)),
    ensures
        raw@ <= 255 ==> record.synced(results).decimals == Some(raw@ as u8),
        raw@ > 255 ==> record.synced(results).decimals == record.decimals,
        raw@ > 255 && record.decimals is None ==> record.synced(results).decimals is None,
{
}

/// A refresh never empties a field: what was present before a reply is
/// present after it, kept or overwritten.
pub proof fn present_fields_stay_present<M>(record: Record<M>, results: Seq<CallResult>)
    ensures
        record.name is Some ==> record.synced(results).name is Some,
        record.symbol is Some ==> record.synced(results).symbol is Some,
        record.decimals is Some ==> record.synced(results).decimals is Some,
{
}

/// After a refresh each field holds what it held before or what the reply
/// gave at its position, and nothing else.
pub proof fn fields_are_kept_or_fetched<M>(record: Record<M>, results: Seq<CallResult>)
    ensures
        record.synced(results).name == record.name || (0 < results.len() && record.synced(
            results,
        ).name == text_of(results[0].unwrap())),
        record.synced(results).symbol == record.symbol || (1 < results.len() && record.synced(
            results,
        ).symbol == text_of(results[1].unwrap())),
        record.synced(results).decimals == record.decimals || (2 < results.len() && record.synced(
            results,
        ).decimals == byte_of(results[2].unwrap())),
{
}

/// A refresh never touches the client or the address, and a field whose
/// position the reply lacks stays as it was.
pub proof fn sync_keeps_what_it_does_not_fetch<M>(record: Record<M>, results: Seq<CallResult>)
    ensures
        record.synced(results).client == record.client,
        record.synced(results).address == record.address,
        results.len() < 1 ==> record.synced(results).name == record.name,
        results.len() < 2 ==> record.synced(results).symbol == record.symbol,
        results.len() < 3 ==> record.synced(results).decimals == record.decimals,
        results.len() == 0 ==> record.synced(results) == record,
{
}

} // verus!
