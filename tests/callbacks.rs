use std::cell::Cell;
use std::cell::RefCell;

use callbacks::callback::{call_once, execute_once, fruits, run_once, working_time};
use callbacks::callback::{CallbackError, HourLog, OnceHandle};
use callbacks::explore::{CityNames, Location, TreasureMap};
use callbacks::fallback::{resolve_option, resolve_result};
use callbacks::retain::{retain, DivertChar, KeepOdd, Predicate};
use callbacks::traverse::{traverse, Numbering};
use callbacks::vault::Vault;

#[test]
fn traverse_visits_each_element_once_in_order() {
    let mut items: Vec<u64> = vec![9, 9, 9, 9];
    let mut op = Numbering::new(0);
    traverse(&mut items, &mut op);
    assert_eq!(items, vec![0, 1, 2, 3]);
    assert_eq!(op.next, 4);
}

#[test]
fn traverse_empty_sequence_invokes_nothing() {
    let mut items: Vec<u64> = Vec::new();
    let mut op = Numbering::new(7);
    traverse(&mut items, &mut op);
    assert!(items.is_empty());
    assert_eq!(op.next, 7);
}

#[test]
fn traverse_saturates_numbering() {
    let mut items: Vec<u64> = vec![0, 0];
    let mut op = Numbering::new(u64::MAX);
    traverse(&mut items, &mut op);
    assert_eq!(items, vec![u64::MAX, u64::MAX]);
    assert_eq!(op.next, u64::MAX);
}

#[test]
fn retain_keeps_odd_numbers() {
    let mut numbers: Vec<i64> = vec![1, 2, 3, 4, 5, 6, 7, 8, 9, 10];
    let mut pred = KeepOdd::new();
    retain(&mut numbers, &mut pred);
    assert_eq!(numbers, vec![1, 3, 5, 7, 9]);
    assert_eq!(pred.rejected, 5);
}

#[test]
fn retain_length_plus_rejections_is_input_length() {
    let input: Vec<i64> = vec![-3, -2, 0, 11, 14, 15, 100, 7];
    let mut numbers = input.clone();
    let mut pred = KeepOdd::new();
    retain(&mut numbers, &mut pred);
    assert_eq!(numbers.len() as u64 + pred.rejected, input.len() as u64);
    assert_eq!(numbers, vec![-3, 11, 15, 7]);
}

#[test]
fn retain_diverts_rejected_characters() {
    let mut console: Vec<char> = "PLaY STaTION".chars().collect();
    let mut pred = DivertChar::new('a');
    retain(&mut console, &mut pred);
    assert_eq!(console.iter().collect::<String>(), "PLY STTION");
    assert_eq!(pred.diverted.iter().collect::<String>(), "aa");
}

#[test]
fn retain_on_empty_and_all_rejected() {
    let mut empty: Vec<char> = Vec::new();
    let mut pred = DivertChar::new('x');
    retain(&mut empty, &mut pred);
    assert!(empty.is_empty());
    assert!(pred.diverted.is_empty());

    let mut all: Vec<char> = vec!['x', 'x', 'x'];
    retain(&mut all, &mut pred);
    assert!(all.is_empty());
    assert_eq!(pred.diverted, vec!['x', 'x', 'x']);
}

#[test]
fn resolve_option_present_never_calls_fallback() {
    let r = resolve_option(Some(String::from("already here")), || -> String {
        panic!("fallback must not run")
    });
    assert_eq!(r, "already here");
}

#[test]
fn resolve_option_absent_calls_fallback_once() {
    let calls = Cell::new(0u32);
    let r = resolve_option(None, || {
        calls.set(calls.get() + 1);
        String::from("default user")
    });
    assert_eq!(r, "default user");
    assert_eq!(calls.get(), 1);
}

#[test]
fn resolve_result_passes_error_to_fallback() {
    let good: Result<i32, String> = Ok(42);
    assert_eq!(resolve_result(good, |_e: String| -> i32 { panic!("fallback must not run") }), 42);
    let seen = RefCell::new(String::new());
    let bad: Result<i32, String> = Err(String::from("connection failed"));
    let value = resolve_result(bad, |e: String| {
        *seen.borrow_mut() = e;
        -1
    });
    assert_eq!(value, -1);
    assert_eq!(seen.borrow().as_str(), "connection failed");
}

#[test]
fn unlock_with_matching_secret_yields_payload() {
    let vault = Vault { password: String::from("S"), treasure: String::from("P") };
    assert_eq!(vault.unlock(|| String::from("S")), Some(String::from("P")));
    let vault2 = Vault { password: String::from("1234"), treasure: String::from("secret document") };
    assert_eq!(vault2.unlock(|| String::from("1234")), Some(String::from("secret document")));
}

#[test]
fn unlock_with_other_secret_yields_nothing() {
    let vault = Vault { password: String::from("S"), treasure: String::from("P") };
    assert_eq!(vault.unlock(|| String::from("s")), None);
    let vault2 = Vault { password: String::from("open sesame"), treasure: String::from("gold coins") };
    assert_eq!(vault2.unlock(|| String::new()), None);
}

#[test]
fn unlock_invokes_procedure_once() {
    let calls = Cell::new(0u32);
    let vault = Vault { password: String::from("open sesame"), treasure: String::from("gold coins") };
    let saved = String::from("open sesame");
    let counter = &calls;
    let r = vault.unlock(move || {
        counter.set(counter.get() + 1);
        saved
    });
    assert_eq!(r, Some(String::from("gold coins")));
    assert_eq!(calls.get(), 1);
}

#[test]
fn open_with_compares_by_value() {
    let vault = Vault { password: String::from("DIFFICULTY PASSED"), treasure: String::from("moves") };
    assert_eq!(vault.open_with(String::from("DIFFICULTY PASSED")), Some(String::from("moves")));
    let vault = Vault { password: String::from("DIFFICULTY PASSED"), treasure: String::from("moves") };
    assert_eq!(vault.open_with(String::from("DIFFICULTY PASSED ")), None);
}

#[test]
fn once_handle_refuses_second_invocation() {
    let calls = Cell::new(0u32);
    let mut handle = OnceHandle::new(|| {
        calls.set(calls.get() + 1);
        42
    });
    assert!(!handle.is_spent());
    assert_eq!(handle.invoke(), Ok(42));
    assert!(handle.is_spent());
    assert_eq!(handle.invoke(), Err(CallbackError::ReuseOfConsumedCallback));
    assert_eq!(calls.get(), 1);
}

#[test]
fn explore_collects_names_in_order() {
    let locations = [
        Location { name: String::from("Abu Dhabi"), treasure: 5 },
        Location { name: String::from("Al ain"), treasure: 10 },
    ];
    let map = TreasureMap { location: &locations };
    let mut names = CityNames::new();
    map.explore(&mut names);
    assert_eq!(names.names, vec![String::from("Abu Dhabi"), String::from("Al ain")]);
    map.explore(&mut names);
    assert_eq!(names.names.len(), 4);
}

#[test]
fn explore_empty_map_invokes_nothing() {
    let locations: [Location; 0] = [];
    let map = TreasureMap { location: &locations };
    let mut names = CityNames::new();
    map.explore(&mut names);
    assert!(names.names.is_empty());
}

#[test]
fn working_time_acts_three_times() {
    let mut log = HourLog::new(12);
    working_time(&mut log);
    assert_eq!(log.log, vec![12, 12, 12]);
}

#[test]
fn fruits_acts_three_times() {
    let mut log = HourLog::new(1);
    fruits(&mut log);
    fruits(&mut log);
    assert_eq!(log.log.len(), 6);
}

#[test]
fn consuming_calls_return_results() {
    let message = String::from("Hello, Rust!");
    assert_eq!(call_once(move || message.len() as i32 + 30), 42);
    let greeting = String::from("Hello, Rust!");
    assert_eq!(run_once(move || greeting), "Hello, Rust!");
    let ran = Cell::new(false);
    execute_once(|| ran.set(true));
    assert!(ran.get());
}

#[test]
fn retain_accepts_read_only_predicate() {
    let mut names = vec!["nde", "a", "simon", "bo", "alexander"];
    let mut pred = Predicate::new(|name: &&str| name.len() > 2);
    retain(&mut names, &mut pred);
    assert_eq!(names, vec!["nde", "simon", "alexander"]);

    let mut messy: Vec<char> = "  h e l l o   w o r l d  ".chars().collect();
    let mut no_spaces = Predicate::new(|c: &char| !c.is_whitespace());
    retain(&mut messy, &mut no_spaces);
    assert_eq!(messy.iter().collect::<String>(), "helloworld");
}
