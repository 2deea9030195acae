//! The deterministic fetch-outcome rule: every 33rd index fails, every other
//! multiple of 3 is a partial success, everything else succeeds.

use pstitle::stages::t07_retrieve_information_outcome;
use pstitle::types::PropertyInfoResult;
use pstitle::types::PropertyRecord;

#[test]
fn classification_matches_rule_for_first_hundred_indices() {
    for n in 0..100usize {
        let info = t07_retrieve_information_outcome(n, PropertyRecord(n));
        if n % 33 == 0 {
            assert!(matches!(info, PropertyInfoResult::Error(_, _)));
        } else if n % 3 == 0 {
            assert!(matches!(info, PropertyInfoResult::SuccessPartial));
        } else {
            assert!(matches!(info, PropertyInfoResult::Success));
        }
    }
}

#[test]
fn classification_is_deterministic() {
    for n in 0..100usize {
        let first = t07_retrieve_information_outcome(n, PropertyRecord(n));
        let second = t07_retrieve_information_outcome(n, PropertyRecord(n));
        assert_eq!(
            std::mem::discriminant(&first),
            std::mem::discriminant(&second)
        );
    }
}

#[test]
fn error_outcome_carries_record_and_message() {
    let info = t07_retrieve_information_outcome(33, PropertyRecord(33));
    match info {
        PropertyInfoResult::Error(record, message) => {
            assert_eq!(record.0, 33);
            assert_eq!(message, "Could not find record information online.");
        }
        _ => panic!("index 33 must classify as an error"),
    }
}

#[test]
fn index_zero_is_an_error() {
    let info = t07_retrieve_information_outcome(0, PropertyRecord(0));
    assert!(matches!(info, PropertyInfoResult::Error(_, _)));
}

#[test]
fn multiples_of_three_are_partial_successes() {
    for n in [3usize, 6, 9, 12, 30, 36, 96] {
        let info = t07_retrieve_information_outcome(n, PropertyRecord(n));
        assert!(matches!(info, PropertyInfoResult::SuccessPartial));
    }
}

#[test]
fn other_indices_are_successes() {
    for n in [1usize, 2, 4, 5, 7, 8, 34, 98] {
        let info = t07_retrieve_information_outcome(n, PropertyRecord(n));
        assert!(matches!(info, PropertyInfoResult::Success));
    }
}
