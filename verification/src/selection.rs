//! The selection rule on plain fee values.
//!
//! A block's transactions are modelled by the sequence of the fees they
//! declare, in the order of the block: `Some(fee)` for a transaction that
//! declares a maximum fee per gas, `None` for one that does not.

use vstd::prelude::*;

verus! {

/// The transaction chosen from a sequence: its place in the sequence and the
/// fee it declares.
#[derive(Clone, Copy, Debug, PartialEq, Eq, Structural)]
pub struct MaxFee {
    pub index: usize,
    pub max_fee_per_gas: u128,
}

/// What a block's transactions come to for the caller that reports on them.
///
/// The three cases are kept apart: a block without transactions is not a block
/// whose transactions declare no fee, and a fee is only ever read from the
/// third.
#[derive(Clone, Copy, Debug, PartialEq, Eq, Structural)]
pub enum SelectionResult {
    /// The block holds no transaction.
    NoTransactions,
    /// The block holds transactions, and none of them declares a fee.
    NoFeeValue,
    /// The first transaction that declares the greatest fee, with that fee.
    Selected(MaxFee),
}

/// The order on optional fees: an absent fee lies below every present one,
/// present fees are ordered by their value, and nothing lies below an absent fee.
pub open spec fn fee_below(a: Option<u128>, b: Option<u128>) -> bool {
    match (a, b) {
        (None, Some(_)) => true,
        (Some(x), Some(y)) => x < y,
        (_, None) => false,
    }
}

/// `fees[i]` is present, no fee of the sequence is greater, and every fee
/// before it is smaller.
pub open spec fn is_first_max(fees: Seq<Option<u128>>, i: int) -> bool {
    &&& 0 <= i < fees.len()
    &&& fees[i] is Some
    &&& forall|j: int| 0 <= j < fees.len() ==> !fee_below(fees[i], #[trigger] fees[j])
    &&& forall|j: int| 0 <= j < i ==> fee_below(#[trigger] fees[j], fees[i])
}

/// No transaction of the sequence declares a fee.
pub open spec fn no_fee(fees: Seq<Option<u128>>) -> bool {
    forall|j: int| 0 <= j < fees.len() ==> #[trigger] fees[j] is None
}

/// `chosen` is what the selection owes on `fees`: the first transaction with
/// the greatest present fee, together with that fee, or nothing where no
/// transaction declares a fee.
pub open spec fn is_selection(fees: Seq<Option<u128>>, chosen: Option<MaxFee>) -> bool {
    match chosen {
        Some(m) => {
            &&& is_first_max(fees, m.index as int)
            &&& fees[m.index as int] == Some(m.max_fee_per_gas)
        },
        None => no_fee(fees),
    }
}

/// `outcome` is what `fees` come to: no transactions for the empty sequence,
/// no fee value where transactions are present and none declares a fee, and
/// otherwise the selection.
pub open spec fn is_outcome(fees: Seq<Option<u128>>, outcome: SelectionResult) -> bool {
    match outcome {
        SelectionResult::NoTransactions => fees.len() == 0,
        SelectionResult::NoFeeValue => fees.len() > 0 && no_fee(fees),
        SelectionResult::Selected(m) => is_selection(fees, Some(m)),
    }
}

/// Compares two optional fees, an absent fee below every present one.
pub fn fee_is_below(a: Option<u128>, b: Option<u128>) -> (below: bool)
    ensures
        below == fee_below(a, b),
{
    match (a, b) {
        (None, Some(_)) => true,
        (Some(x), Some(y)) => x < y,
        (_, None) => false,
    }
}

/// Scans `fees` once and selects the first transaction that declares the
/// greatest fee. Returns `None` where the sequence is empty or no transaction
/// declares a fee.
///
/// The selected transaction is an element of `fees` and carries the fee found
/// there, and no transaction of `fees` declares a greater one.
pub fn select_max_fee(fees: &[Option<u128>]) -> (chosen: Option<MaxFee>)
    ensures
        is_selection(fees@, chosen),
        chosen matches Some(m) ==> {
            &&& m.index < fees@.len()
            &&& fees@[m.index as int] == Some(m.max_fee_per_gas)
        },
        chosen matches Some(m) ==> forall|j: int|
            0 <= j < fees@.len() ==> !fee_below(Some(m.max_fee_per_gas), #[trigger] fees@[j]),
{
    let mut chosen: Option<MaxFee> = None;
    let mut i: usize = 0;
    while i < fees.len()
        invariant
            i <= fees@.len(),
            is_selection(fees@.take(i as int), chosen),
        decreases fees@.len() - i,
    {
        if let Some(fee) = fees[i] {
            let best = match chosen {
                Some(m) => Some(m.max_fee_per_gas),
                None => None,
            };
            if fee_is_below(best, Some(fee)) {
                chosen = Some(MaxFee { index: i, max_fee_per_gas: fee });
            }
        }
        i = i + 1;
    }
    assert(fees@.take(i as int) == fees@);
    chosen
}

/// Selects on `fees` and tells apart why nothing was selected: because the
/// sequence is empty, or because none of its transactions declares a fee.
pub fn summarize(fees: &[Option<u128>]) -> (outcome: SelectionResult)
    ensures
        is_outcome(fees@, outcome),
{
    match select_max_fee(fees) {
        Some(m) => SelectionResult::Selected(m),
        None => {
            if fees.len() == 0 {
                SelectionResult::NoTransactions
            } else {
                SelectionResult::NoFeeValue
            }
        },
    }
}

/// The selection is a function of the fees: two results that both meet the
/// selection rule on one sequence are the same result. Selecting again on an
/// unchanged sequence therefore selects the same transaction with the same fee.
pub proof fn selection_is_unique(fees: Seq<Option<u128>>, a: Option<MaxFee>, b: Option<MaxFee>)
    requires
        is_selection(fees, a),
        is_selection(fees, b),
    ensures
        a == b,
{
}

/// The outcome is a function of the fees as well: two outcomes that both fit
/// one sequence are the same outcome.
pub proof fn outcome_is_unique(fees: Seq<Option<u128>>, a: SelectionResult, b: SelectionResult)
    requires
        is_outcome(fees, a),
        is_outcome(fees, b),
    ensures
        a == b,
{
}

/// The outcome and the selection agree: a transaction is reported as selected
/// exactly where the selection chose it, and nothing is selected exactly where
/// the outcome is one of the two empty cases.
pub proof fn outcome_agrees_with_selection(
    fees: Seq<Option<u128>>,
    outcome: SelectionResult,
    chosen: Option<MaxFee>,
)
    requires
        is_outcome(fees, outcome),
        is_selection(fees, chosen),
    ensures
        match chosen {
            Some(m) => outcome == SelectionResult::Selected(m),
            None => outcome == if fees.len() == 0 {
                SelectionResult::NoTransactions
            } else {
                SelectionResult::NoFeeValue
            },
        },
{
}

} // verus!
