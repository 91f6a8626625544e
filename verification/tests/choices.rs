//! Choice decoding and the interval evaluator's choice state.

use tapejit::choice::{CHOICE_BOTH, CHOICE_LEFT, CHOICE_RIGHT, Choice, ChoiceTrace, choice_from_byte};

#[test]
fn test_choice_wire_values() {
    assert_eq!(CHOICE_LEFT, 1);
    assert_eq!(CHOICE_RIGHT, 2);
    assert_eq!(CHOICE_BOTH, 3);
}

#[test]
fn test_choice_from_byte() {
    assert_eq!(choice_from_byte(0), Some(Choice::Unknown));
    assert_eq!(choice_from_byte(1), Some(Choice::Left));
    assert_eq!(choice_from_byte(2), Some(Choice::Right));
    assert_eq!(choice_from_byte(3), Some(Choice::Both));
    assert_eq!(choice_from_byte(4), None);
    assert_eq!(choice_from_byte(255), None);
}

#[test]
fn test_trace_new_and_reset() {
    let mut t = ChoiceTrace::new(3);
    assert_eq!(t.raw, vec![0, 0, 0]);
    assert_eq!(t.choices, vec![Choice::Both, Choice::Both, Choice::Both]);
    t.raw = vec![1, 3, 2];
    t.reset_choices();
    assert_eq!(t.raw, vec![0, 0, 0]);
}

#[test]
fn test_trace_load() {
    let mut t = ChoiceTrace::new(4);
    t.raw = vec![0, 1, 2, 3];
    assert!(t.check_raw());
    t.load_choices();
    assert_eq!(
        t.choices,
        vec![Choice::Unknown, Choice::Left, Choice::Right, Choice::Both]
    );
}

#[test]
fn test_trace_rejects_corrupt_byte() {
    let mut t = ChoiceTrace::new(2);
    t.raw = vec![3, 4];
    assert!(!t.check_raw());
}

#[test]
fn test_reload_is_deterministic() {
    // Decoding the same bytes twice gives the same choices.
    let mut t = ChoiceTrace::new(3);
    t.raw = vec![2, 0, 3];
    t.load_choices();
    let first = t.choices.clone();
    t.load_choices();
    assert_eq!(t.choices, first);
}
