//! Selection on a block's transaction collection as the node delivers it.

use alloy_rpc_types_eth::{BlockTransactions, Transaction};
use vstd::prelude::*;

use crate::selection::{
    fee_below, is_outcome, is_selection, select_max_fee, summarize, MaxFee, SelectionResult,
};

verus! {

/// The transaction collection of a block, `alloy_rpc_types_eth::BlockTransactions`,
/// taken as an opaque value.
#[verifier::external_type_specification]
#[verifier::external_body]
#[verifier::reject_recursive_types(T)]
pub struct ExBlockTransactions<T>(alloy_rpc_types_eth::BlockTransactions<T>);

/// A transaction as the node delivers it, `alloy_rpc_types_eth::Transaction`,
/// taken as an opaque value.
#[verifier::external_type_specification]
#[verifier::external_body]
pub struct ExTransaction(alloy_rpc_types_eth::Transaction);

/// Whether the collection holds full transactions, rather than hashes only or
/// the marker of an uncle block: whether `BlockTransactions::as_transactions`
/// hands out a slice. Nothing here defines it.
pub uninterp spec fn holds_full(transactions: BlockTransactions<Transaction>) -> bool;

/// The `max_fee_per_gas` fields of the full transactions that the collection
/// holds, in the collection's order. Nothing here defines it, and nothing is
/// said of it for a collection that holds no full transactions.
pub uninterp spec fn full_fees(transactions: BlockTransactions<Transaction>) -> Seq<Option<u128>>;

/// The fees that the selection scans: those of the full transactions, and none
/// for a collection that holds no full transactions.
pub open spec fn scanned_fees(transactions: BlockTransactions<Transaction>) -> Seq<Option<u128>> {
    if holds_full(transactions) {
        full_fees(transactions)
    } else {
        Seq::empty()
    }
}

/// Calls `BlockTransactions::as_transactions` and reads the field
/// `max_fee_per_gas` of each transaction in the slice it hands out.
///
/// Not proved, taken from that crate: the call gives a slice exactly for a
/// collection of full transactions, the slice holds them in the collection's
/// order, and the call does not panic.
#[verifier::external_body]
fn full_transaction_fees(
    transactions: &BlockTransactions<Transaction>,
) -> (fees: Option<Vec<Option<u128>>>)
    ensures
        fees is Some <==> holds_full(*transactions),
        fees matches Some(v) ==> v@ == full_fees(*transactions),
{
    transactions.as_transactions().map(|txs| txs.iter().map(|tx| tx.max_fee_per_gas).collect())
}

/// Selects, among the full transactions of `transactions`, the first one that
/// declares the greatest maximum fee per gas. A collection without full
/// transactions is scanned as an empty one.
///
/// The result gives the place of the selected transaction among the full
/// transactions and the fee it declares; no full transaction declares a
/// greater one.
pub fn get_max_fee(transactions: &BlockTransactions<Transaction>) -> (chosen: Option<MaxFee>)
    ensures
        is_selection(scanned_fees(*transactions), chosen),
        chosen matches Some(m) ==> {
            &&& m.index < scanned_fees(*transactions).len()
            &&& scanned_fees(*transactions)[m.index as int] == Some(m.max_fee_per_gas)
        },
        chosen matches Some(m) ==> forall|j: int|
            0 <= j < scanned_fees(*transactions).len() ==> !fee_below(
                Some(m.max_fee_per_gas),
                #[trigger] scanned_fees(*transactions)[j],
            ),
{
    match full_transaction_fees(transactions) {
        Some(fees) => select_max_fee(fees.as_slice()),
        None => None,
    }
}

/// Decides what there is to report of a block's transactions: the selected
/// transaction with its fee, or which of the two reasons left nothing to
/// select. A collection without full transactions counts as an empty one.
pub fn handle_block(transactions: &BlockTransactions<Transaction>) -> (outcome: SelectionResult)
    ensures
        is_outcome(scanned_fees(*transactions), outcome),
{
    match full_transaction_fees(transactions) {
        Some(fees) => summarize(fees.as_slice()),
        None => SelectionResult::NoTransactions,
    }
}

} // verus!
