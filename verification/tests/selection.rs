use max_fee::{fee_is_below, select_max_fee, summarize, MaxFee, SelectionResult};

fn at(index: usize, max_fee_per_gas: u128) -> Option<MaxFee> {
    Some(MaxFee { index, max_fee_per_gas })
}

#[test]
fn empty_sequence_selects_nothing() {
    assert_eq!(select_max_fee(&[]), None);
}

#[test]
fn single_transaction_is_selected() {
    assert_eq!(select_max_fee(&[Some(100)]), at(0, 100));
}

#[test]
fn first_of_two_is_selected_when_greater() {
    assert_eq!(select_max_fee(&[Some(200), Some(100)]), at(0, 200));
}

#[test]
fn second_of_two_is_selected_when_greater() {
    assert_eq!(select_max_fee(&[Some(100), Some(300)]), at(1, 300));
}

#[test]
fn all_absent_fees_select_nothing() {
    assert_eq!(select_max_fee(&[None, None]), None);
    assert_eq!(select_max_fee(&[None]), None);
}

#[test]
fn tie_selects_the_first() {
    assert_eq!(select_max_fee(&[Some(150), Some(150)]), at(0, 150));
    assert_eq!(select_max_fee(&[Some(1), Some(150), Some(150), Some(150)]), at(1, 150));
}

#[test]
fn absent_fee_is_never_preferred() {
    assert_eq!(select_max_fee(&[None, Some(0)]), at(1, 0));
    assert_eq!(select_max_fee(&[Some(0), None]), at(0, 0));
    assert_eq!(select_max_fee(&[None, None, Some(1), None]), at(2, 1));
}

#[test]
fn zero_fee_is_a_present_fee() {
    assert_eq!(select_max_fee(&[Some(0)]), at(0, 0));
    assert_eq!(select_max_fee(&[Some(0), Some(0)]), at(0, 0));
}

#[test]
fn greatest_representable_fee_is_selected() {
    assert_eq!(
        select_max_fee(&[Some(u128::MAX - 1), Some(u128::MAX), Some(u128::MAX)]),
        at(1, u128::MAX)
    );
}

#[test]
fn greatest_fee_is_found_anywhere() {
    assert_eq!(select_max_fee(&[Some(9), Some(2), Some(5)]), at(0, 9));
    assert_eq!(select_max_fee(&[Some(2), Some(9), Some(5)]), at(1, 9));
    assert_eq!(select_max_fee(&[Some(2), Some(5), Some(9)]), at(2, 9));
}

#[test]
fn selected_transaction_is_a_member_with_its_fee() {
    let fees = [Some(3), None, Some(8), Some(8), Some(1), None];
    let chosen = select_max_fee(&fees).unwrap();
    assert!(chosen.index < fees.len());
    assert_eq!(fees[chosen.index], Some(chosen.max_fee_per_gas));
}

#[test]
fn no_fee_is_greater_than_the_selected() {
    let fees = [Some(3), None, Some(8), Some(8), Some(1), None];
    let chosen = select_max_fee(&fees).unwrap();
    for fee in fees.iter() {
        if let Some(value) = fee {
            assert!(*value <= chosen.max_fee_per_gas);
        }
    }
    for fee in fees[..chosen.index].iter() {
        assert!(fee_is_below(*fee, Some(chosen.max_fee_per_gas)));
    }
}

#[test]
fn selecting_twice_gives_the_same() {
    let fees = vec![Some(10), Some(40), None, Some(40), Some(7)];
    let first = select_max_fee(&fees);
    let second = select_max_fee(&fees);
    assert_eq!(first, second);
    assert_eq!(first, at(1, 40));
    assert_eq!(fees, vec![Some(10), Some(40), None, Some(40), Some(7)]);
}

#[test]
fn fee_order_puts_absent_below_present() {
    assert!(fee_is_below(None, Some(0)));
    assert!(fee_is_below(None, Some(u128::MAX)));
    assert!(!fee_is_below(Some(0), None));
    assert!(!fee_is_below(None, None));
}

#[test]
fn fee_order_is_strict_on_present_fees() {
    assert!(fee_is_below(Some(1), Some(2)));
    assert!(!fee_is_below(Some(2), Some(1)));
    assert!(!fee_is_below(Some(2), Some(2)));
}

#[test]
fn summarize_empty_sequence() {
    assert_eq!(summarize(&[]), SelectionResult::NoTransactions);
}

#[test]
fn summarize_sequence_without_fees() {
    assert_eq!(summarize(&[None]), SelectionResult::NoFeeValue);
    assert_eq!(summarize(&[None, None, None]), SelectionResult::NoFeeValue);
}

#[test]
fn summarize_selects_as_select_max_fee_does() {
    assert_eq!(
        summarize(&[Some(100)]),
        SelectionResult::Selected(MaxFee { index: 0, max_fee_per_gas: 100 })
    );
    assert_eq!(
        summarize(&[None, Some(150), Some(150)]),
        SelectionResult::Selected(MaxFee { index: 1, max_fee_per_gas: 150 })
    );
    assert_eq!(
        summarize(&[Some(0), None]),
        SelectionResult::Selected(MaxFee { index: 0, max_fee_per_gas: 0 })
    );
}

#[test]
fn summarize_twice_gives_the_same() {
    let fees = [None, Some(2), Some(1)];
    assert_eq!(summarize(&fees), summarize(&fees));
}
