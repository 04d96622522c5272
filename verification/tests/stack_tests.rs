//! The operand stack: typed pops never partially mutate the stack.

use little_man_os::stack::{Stack, StackValue};

#[test]
fn try_pop_on_empty_stack_returns_nothing() {
    let mut s = Stack::new();
    assert!(s.try_pop::<String>().is_none());
    assert!(s.try_pop::<i64>().is_none());
    assert_eq!(s.len(), 0);
}

#[test]
fn try_pop_on_type_mismatch_leaves_stack_unchanged() {
    let mut s = Stack::new();
    s.push(StackValue::Number(3));
    assert!(s.try_pop::<String>().is_none());
    assert_eq!(s.len(), 1);
    assert_eq!(s.try_pop::<i64>(), Some(3));
    assert_eq!(s.len(), 0);
}

#[test]
fn try_pop_text_mismatch_keeps_contents() {
    let mut s = Stack::new();
    s.push(StackValue::Text(String::from("alpha")));
    s.push(StackValue::Text(String::from("beta")));
    assert!(s.try_pop::<i64>().is_none());
    assert_eq!(s.len(), 2);
    assert_eq!(s.try_pop::<String>(), Some(String::from("beta")));
    assert_eq!(s.try_pop::<String>(), Some(String::from("alpha")));
}

#[test]
fn push_then_matching_pop_round_trips() {
    let mut s = Stack::new();
    s.push(StackValue::Number(-17));
    s.push(StackValue::Text(String::from("word")));
    assert_eq!(s.try_pop::<String>(), Some(String::from("word")));
    assert_eq!(s.try_pop::<i64>(), Some(-17));
    assert!(s.try_pop::<i64>().is_none());
}

#[test]
fn pop_value_returns_top_entry() {
    let mut s = Stack::new();
    s.push(StackValue::Number(1));
    s.push(StackValue::Number(2));
    match s.pop_value() {
        Some(StackValue::Number(n)) => assert_eq!(n, 2),
        _ => panic!("expected the top number"),
    }
    assert_eq!(s.len(), 1);
}
