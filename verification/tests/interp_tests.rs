//! The interpreter: tokenizing, literals, the default words, stored
//! instruction sequences, and depth-first draining.

use little_man_os::forth::{tokenize, ForthMachine, NativeWord, Word};
use little_man_os::stack::StackValue;

#[test]
fn tokenize_splits_on_blank_runs() {
    let toks = tokenize("  3 dup \n swap\t");
    let texts: Vec<&str> = toks.iter().map(|t| t.as_str()).collect();
    assert_eq!(texts, vec!["3", "dup", "swap"]);
}

#[test]
fn number_then_dup_leaves_two_numbers() {
    let mut m = ForthMachine::new();
    m.add_instructions("3 dup");
    m.run_to_end();
    assert_eq!(m.stack.try_pop::<i64>(), Some(3));
    assert_eq!(m.stack.try_pop::<i64>(), Some(3));
    assert_eq!(m.stack.len(), 0);
}

#[test]
fn unknown_token_becomes_text_literal() {
    let mut m = ForthMachine::new();
    m.add_instructions("frobnicate");
    m.run_to_end();
    assert_eq!(m.stack.try_pop::<String>(), Some(String::from("frobnicate")));
}

#[test]
fn quoted_token_loses_its_quotes() {
    let mut m = ForthMachine::new();
    m.add_instructions("\"bin/startup.for\"");
    m.run_to_end();
    assert_eq!(
        m.stack.try_pop::<String>(),
        Some(String::from("bin/startup.for"))
    );
}

#[test]
fn negative_number_is_recognized() {
    let mut m = ForthMachine::new();
    m.add_instructions("-5");
    m.run_to_end();
    assert_eq!(m.stack.try_pop::<i64>(), Some(-5));
}

#[test]
fn oversized_numeral_stays_text() {
    let mut m = ForthMachine::new();
    m.add_instructions("1234567890123456789");
    m.run_to_end();
    assert_eq!(
        m.stack.try_pop::<String>(),
        Some(String::from("1234567890123456789"))
    );
}

#[test]
fn swap_exchanges_the_two_top_entries() {
    let mut m = ForthMachine::new();
    m.add_instructions("1 2 swap");
    m.run_to_end();
    assert_eq!(m.stack.try_pop::<i64>(), Some(1));
    assert_eq!(m.stack.try_pop::<i64>(), Some(2));
}

#[test]
fn drop_removes_the_top_entry() {
    let mut m = ForthMachine::new();
    m.add_instructions("1 2 drop");
    m.run_to_end();
    assert_eq!(m.stack.try_pop::<i64>(), Some(1));
    assert_eq!(m.stack.len(), 0);
}

#[test]
fn script_word_expands_before_following_tokens() {
    let mut m = ForthMachine::new();
    m.insert_word("pair", Word::Script(String::from("1 2")));
    m.add_instructions("pair 9");
    m.run_to_end();
    assert_eq!(m.stack.try_pop::<i64>(), Some(9));
    assert_eq!(m.stack.try_pop::<i64>(), Some(2));
    assert_eq!(m.stack.try_pop::<i64>(), Some(1));
}

#[test]
fn later_word_registration_overwrites_earlier() {
    let mut m = ForthMachine::new();
    m.insert_word("x", Word::Script(String::from("1")));
    m.insert_word("x", Word::Script(String::from("2")));
    m.add_instructions("x");
    m.run_to_end();
    assert_eq!(m.stack.try_pop::<i64>(), Some(2));
    assert_eq!(m.stack.len(), 0);
}

#[test]
fn queued_fragments_run_in_order() {
    let mut m = ForthMachine::new();
    m.add_instructions("1");
    m.add_instructions("2");
    m.run_to_end();
    assert_eq!(m.stack.try_pop::<i64>(), Some(2));
    assert_eq!(m.stack.try_pop::<i64>(), Some(1));
}

#[test]
fn run_word_is_registered_by_the_host() {
    let mut m = ForthMachine::new();
    m.insert_word("run", Word::Native(NativeWord::Run));
    m.stack.push(StackValue::Number(0));
    m.add_instructions("run");
    m.run_to_end();
    // with nothing but a number on the stack, the run word reports an
    // empty path to the display and execution continues
    match &m.display.formatter {
        little_man_os::display::GraphicsHandleType::TextMode(w) => {
            assert!(w.written.contains("Run: empty path"));
        }
        _ => panic!("expected text mode"),
    }
    assert_eq!(m.stack.try_pop::<i64>(), Some(0));
}
