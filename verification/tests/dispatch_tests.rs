//! Behavioral tests of the dispatch engine: shape matching, fan-out,
//! the join barrier, failure isolation, receiver exclusivity, and the
//! unknown-signal no-op.

use std::sync::{Arc, Mutex};

use rust_signal_and_slots::SharedReceiver;
use rust_signal_and_slots::SignalAndSlotHandler;
use rust_signal_and_slots::SlotArgs;
use rust_signal_and_slots::create::int_method_slot;
use rust_signal_and_slots::create::int_slot;
use rust_signal_and_slots::create::none_slot;
use rust_signal_and_slots::create::string_slot;

#[test]
fn shape_matching_only_matching_slot_runs() {
    let mut handler = SignalAndSlotHandler::new();
    let int_hits = Arc::new(Mutex::new(0i32));
    let text_hits = Arc::new(Mutex::new(0i32));

    let int_hits_inner = Arc::clone(&int_hits);
    handler.connect(
        String::from("x"),
        int_slot(move |_n: i32| -> Result<(), String> {
            *int_hits_inner.lock().unwrap() += 1;
            Ok(())
        }),
    );
    let text_hits_inner = Arc::clone(&text_hits);
    handler.connect(
        String::from("x"),
        string_slot(move |_s: String| -> Result<(), String> {
            *text_hits_inner.lock().unwrap() += 1;
            Ok(())
        }),
    );

    handler.emit(String::from("x"), SlotArgs::Text(String::from("a")));

    assert_eq!(*int_hits.lock().unwrap(), 0);
    assert_eq!(*text_hits.lock().unwrap(), 1);
}

#[test]
fn shape_mismatch_is_a_silent_skip() {
    let mut handler = SignalAndSlotHandler::new();
    let hits = Arc::new(Mutex::new(0i32));

    let hits_inner = Arc::clone(&hits);
    handler.connect(
        String::from("x"),
        int_slot(move |_n: i32| -> Result<(), String> {
            *hits_inner.lock().unwrap() += 1;
            Ok(())
        }),
    );

    handler.emit(String::from("x"), SlotArgs::Bool(true));
    assert_eq!(*hits.lock().unwrap(), 0);

    handler.emit(String::from("x"), SlotArgs::Int(5));
    assert_eq!(*hits.lock().unwrap(), 1);
}

#[test]
fn fanout_three_connections_three_invocations() {
    let mut handler = SignalAndSlotHandler::new();
    let count = Arc::new(Mutex::new(0i32));

    let count_inner = Arc::clone(&count);
    let slot = none_slot(move || -> Result<(), String> {
        *count_inner.lock().unwrap() += 1;
        Ok(())
    });
    handler.connect(String::from("go"), slot.clone());
    handler.connect(String::from("go"), slot.clone());
    handler.connect(String::from("go"), slot);

    handler.emit(String::from("go"), SlotArgs::Empty);

    assert_eq!(*count.lock().unwrap(), 3);
}

#[test]
fn one_slot_under_two_names_runs_under_each() {
    let mut handler = SignalAndSlotHandler::new();
    let count = Arc::new(Mutex::new(0i32));

    let count_inner = Arc::clone(&count);
    let slot = none_slot(move || -> Result<(), String> {
        *count_inner.lock().unwrap() += 1;
        Ok(())
    });
    handler.connect(String::from("first"), slot.clone());
    handler.connect(String::from("second"), slot);

    handler.emit(String::from("first"), SlotArgs::Empty);
    assert_eq!(*count.lock().unwrap(), 1);
    handler.emit(String::from("second"), SlotArgs::Empty);
    assert_eq!(*count.lock().unwrap(), 2);
}

#[test]
fn emit_returns_only_after_slow_slot_finished() {
    let mut handler = SignalAndSlotHandler::new();
    let flag = Arc::new(Mutex::new(false));

    let flag_inner = Arc::clone(&flag);
    handler.connect(
        String::from("slow"),
        none_slot(move || -> Result<(), String> {
            // Burn some time before setting the flag, so that a missing
            // join barrier would be observed as a still-unset flag.
            let mut acc = 0u64;
            for i in 0..5_000_000u64 {
                acc = acc.wrapping_add(i);
            }
            std::hint::black_box(acc);
            let mut guard = flag_inner.lock().unwrap();
            *guard = true;
            Ok(())
        }),
    );

    handler.emit(String::from("slow"), SlotArgs::Empty);

    assert!(*flag.lock().unwrap());
}

#[test]
fn failing_slot_does_not_stop_siblings_or_later_emits() {
    let mut handler = SignalAndSlotHandler::new();
    let good_runs = Arc::new(Mutex::new(0i32));

    handler.connect(
        String::from("mixed"),
        none_slot(move || -> Result<(), String> { Err(String::from("always fails")) }),
    );
    let good_runs_inner = Arc::clone(&good_runs);
    handler.connect(
        String::from("mixed"),
        none_slot(move || -> Result<(), String> {
            *good_runs_inner.lock().unwrap() += 1;
            Ok(())
        }),
    );

    handler.emit(String::from("mixed"), SlotArgs::Empty);
    assert_eq!(*good_runs.lock().unwrap(), 1);

    handler.emit(String::from("mixed"), SlotArgs::Empty);
    assert_eq!(*good_runs.lock().unwrap(), 2);
}

#[test]
fn shared_receiver_sees_every_update_exactly_once() {
    let mut handler = SignalAndSlotHandler::new();
    let receiver: SharedReceiver<i32> = SharedReceiver::new(0);
    let observed = Arc::new(Mutex::new(Vec::<i32>::new()));

    // Two increment-and-record method slots bound to one receiver: the
    // receiver is locked for the whole of each invocation, so no update
    // may be lost and no partial state observed.
    for _ in 0..2 {
        let observed_inner = Arc::clone(&observed);
        handler.connect(
            String::from("bump"),
            int_method_slot(
                move |counter: &mut i32, delta: i32| -> Result<(), String> {
                    *counter += delta;
                    observed_inner.lock().unwrap().push(*counter);
                    Ok(())
                },
                receiver.clone(),
            ),
        );
    }

    let rounds: i32 = 50;
    for _ in 0..rounds {
        handler.emit(String::from("bump"), SlotArgs::Int(1));
    }

    let seen = observed.lock().unwrap();
    assert_eq!(seen.len(), (2 * rounds) as usize);
    assert_eq!(seen.iter().copied().max(), Some(2 * rounds));
    let mut sorted = seen.clone();
    sorted.sort();
    let expected: Vec<i32> = (1..=(2 * rounds)).collect();
    assert_eq!(sorted, expected);
}

#[test]
fn unknown_signal_is_a_no_op() {
    let mut handler = SignalAndSlotHandler::new();
    let hits = Arc::new(Mutex::new(0i32));

    let hits_inner = Arc::clone(&hits);
    handler.connect(
        String::from("known"),
        none_slot(move || -> Result<(), String> {
            *hits_inner.lock().unwrap() += 1;
            Ok(())
        }),
    );

    handler.emit(String::from("nonexistent"), SlotArgs::Empty);
    handler.emit(String::from("nonexistent"), SlotArgs::Int(7));

    assert_eq!(*hits.lock().unwrap(), 0);
}

#[test]
fn emit_on_empty_handler_returns_normally() {
    let handler = SignalAndSlotHandler::new();
    handler.emit(String::from("anything"), SlotArgs::Empty);
    handler.emit(String::from("anything"), SlotArgs::Text(String::from("x")));
}

#[test]
fn default_handler_has_no_connections() {
    let handler = SignalAndSlotHandler::default();
    handler.emit(String::from("anything"), SlotArgs::Empty);
}

#[test]
fn cloned_payload_carries_the_same_value() {
    let mut handler = SignalAndSlotHandler::new();
    let got = Arc::new(Mutex::new(Vec::<Vec<i32>>::new()));

    let got_inner = Arc::clone(&got);
    handler.connect(
        String::from("data"),
        rust_signal_and_slots::create::int_array_slot(move |ns: Vec<i32>| -> Result<(), String> {
            got_inner.lock().unwrap().push(ns);
            Ok(())
        }),
    );

    let args = SlotArgs::IntArray(vec![7, 8, 9]);
    let copy = args.clone();
    handler.emit(String::from("data"), args);
    handler.emit(String::from("data"), copy);

    assert_eq!(*got.lock().unwrap(), vec![vec![7, 8, 9], vec![7, 8, 9]]);
}
