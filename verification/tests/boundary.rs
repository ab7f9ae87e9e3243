use rust_ffi_demo::boundary::version;
use rust_ffi_demo::boundary::Boundary;
use rust_ffi_demo::boundary::CounterHandle;
use rust_ffi_demo::status::RustFfiDemoStatus;

fn fresh_counter(b: &mut Boundary<u8>, initial: i64) -> CounterHandle {
    let (st, oh) = b.counter_new(initial, false);
    assert_eq!(st, RustFfiDemoStatus::RustffiOk);
    oh.expect("construct must hand back a handle")
}

#[test]
fn construct_and_read_value() {
    let mut b: Boundary<u8> = Boundary::new();
    let h = fresh_counter(&mut b, 41);
    let (st, v) = b.counter_value(h, false);
    assert_eq!(st, RustFfiDemoStatus::RustffiOk);
    assert_eq!(v, Some(41));
}

#[test]
fn construct_with_null_out_slot_allocates_nothing() {
    let mut b: Boundary<u8> = Boundary::new();
    let (st, oh) = b.counter_new(7, true);
    assert_eq!(st, RustFfiDemoStatus::RustffiNullArg);
    assert!(oh.is_none());
    // The next construct mints the first token: nothing was allocated above.
    let h = fresh_counter(&mut b, 0);
    assert_eq!(h.raw(), 1);
}

#[test]
fn increment_saturates_at_both_bounds() {
    let mut b: Boundary<u8> = Boundary::new();
    let h = fresh_counter(&mut b, i64::MAX - 1);
    let (st, _) = b.counter_increment(h, 5);
    assert_eq!(st, RustFfiDemoStatus::RustffiOk);
    let (_, v) = b.counter_value(h, false);
    assert_eq!(v, Some(i64::MAX));
    let (_, _) = b.counter_increment(h, i64::MIN);
    let (_, _) = b.counter_increment(h, i64::MIN);
    let (_, v2) = b.counter_value(h, false);
    assert_eq!(v2, Some(i64::MIN));
}

#[test]
fn increments_accumulate_as_saturating_sum() {
    let mut b: Boundary<u8> = Boundary::new();
    let h = fresh_counter(&mut b, 10);
    for d in [3, -5, 20, 0, -1] {
        let (st, _) = b.counter_increment(h, d);
        assert_eq!(st, RustFfiDemoStatus::RustffiOk);
    }
    let (_, v) = b.counter_value(h, false);
    assert_eq!(v, Some(27));
}

#[test]
fn reset_always_yields_zero() {
    let mut b: Boundary<u8> = Boundary::new();
    let h = fresh_counter(&mut b, 123456);
    let (st, note) = b.counter_reset(h);
    assert_eq!(st, RustFfiDemoStatus::RustffiOk);
    assert_eq!(note, None);
    let (_, v) = b.counter_value(h, false);
    assert_eq!(v, Some(0));
    // And again from an already-zero state.
    let (st2, _) = b.counter_reset(h);
    assert_eq!(st2, RustFfiDemoStatus::RustffiOk);
    let (_, v2) = b.counter_value(h, false);
    assert_eq!(v2, Some(0));
}

#[test]
fn reset_notifies_registered_callback_with_zero() {
    let mut b: Boundary<u8> = Boundary::new();
    let h = fresh_counter(&mut b, 55);
    assert_eq!(b.counter_set_callback(h, Some(9)), RustFfiDemoStatus::RustffiOk);
    let (st, note) = b.counter_reset(h);
    assert_eq!(st, RustFfiDemoStatus::RustffiOk);
    assert_eq!(note, Some(0));
    assert_eq!(b.counter_callback(h), Some(&9));
}

#[test]
fn callback_notified_on_each_increment_in_order() {
    let mut b: Boundary<u8> = Boundary::new();
    let h = fresh_counter(&mut b, 0);
    assert_eq!(b.counter_set_callback(h, Some(1)), RustFfiDemoStatus::RustffiOk);
    let mut seen: Vec<i64> = Vec::new();
    for d in [1, 2, 3] {
        let (st, note) = b.counter_increment(h, d);
        assert_eq!(st, RustFfiDemoStatus::RustffiOk);
        seen.push(note.expect("a registered callback is owed every change"));
    }
    // Exactly three notifications, carrying the running totals in order.
    assert_eq!(seen, vec![1, 3, 6]);
    // Clearing the callback stops further notifications.
    assert_eq!(b.counter_set_callback(h, None), RustFfiDemoStatus::RustffiOk);
    let (st, note) = b.counter_increment(h, 10);
    assert_eq!(st, RustFfiDemoStatus::RustffiOk);
    assert_eq!(note, None);
    let (_, v) = b.counter_value(h, false);
    assert_eq!(v, Some(16));
}

#[test]
fn get_label_query_on_unset_label_needs_one_byte() {
    let mut b: Boundary<u8> = Boundary::new();
    let h = fresh_counter(&mut b, 0);
    assert_eq!(b.counter_set_label(h, None), RustFfiDemoStatus::RustffiOk);
    let (st, needed, bytes) = b.counter_get_label(h, true, 0, false);
    assert_eq!(st, RustFfiDemoStatus::RustffiOk);
    assert_eq!(needed, Some(1));
    assert!(bytes.is_none());
    // A real buffer of length >= 1 receives the empty terminated string.
    let (st2, needed2, bytes2) = b.counter_get_label(h, false, 1, false);
    assert_eq!(st2, RustFfiDemoStatus::RustffiOk);
    assert_eq!(needed2, Some(1));
    assert_eq!(bytes2, Some(vec![0u8]));
}

#[test]
fn get_label_two_phase_sizing_for_hello() {
    let mut b: Boundary<u8> = Boundary::new();
    let h = fresh_counter(&mut b, 0);
    let st = b.counter_set_label(h, Some(b"hello".to_vec()));
    assert_eq!(st, RustFfiDemoStatus::RustffiOk);
    // Undersized buffer: fails, but the needed size is still reported.
    let (st1, needed1, bytes1) = b.counter_get_label(h, false, 5, false);
    assert_eq!(st1, RustFfiDemoStatus::RustffiInvalidArg);
    assert_eq!(needed1, Some(6));
    assert!(bytes1.is_none());
    // Adequate buffer: the label plus its terminator.
    let (st2, needed2, bytes2) = b.counter_get_label(h, false, 6, false);
    assert_eq!(st2, RustFfiDemoStatus::RustffiOk);
    assert_eq!(needed2, Some(6));
    assert_eq!(bytes2, Some(b"hello\0".to_vec()));
}

#[test]
fn get_label_with_null_needed_slot_is_refused() {
    let mut b: Boundary<u8> = Boundary::new();
    let h = fresh_counter(&mut b, 0);
    let (st, needed, bytes) = b.counter_get_label(h, true, 0, true);
    assert_eq!(st, RustFfiDemoStatus::RustffiNullArg);
    assert!(needed.is_none());
    assert!(bytes.is_none());
}

#[test]
fn bad_label_bytes_leave_stored_label_unchanged() {
    let mut b: Boundary<u8> = Boundary::new();
    let h = fresh_counter(&mut b, 0);
    assert_eq!(b.counter_set_label(h, Some(b"keep".to_vec())), RustFfiDemoStatus::RustffiOk);
    // Embedded NUL.
    let st1 = b.counter_set_label(h, Some(b"a\0b".to_vec()));
    assert_eq!(st1, RustFfiDemoStatus::RustffiInvalidArg);
    // Invalid encoding: a stray continuation byte.
    let st2 = b.counter_set_label(h, Some(vec![0x80u8]));
    assert_eq!(st2, RustFfiDemoStatus::RustffiInvalidArg);
    let (st3, needed, bytes) = b.counter_get_label(h, false, 16, false);
    assert_eq!(st3, RustFfiDemoStatus::RustffiOk);
    assert_eq!(needed, Some(5));
    assert_eq!(bytes, Some(b"keep\0".to_vec()));
}

#[test]
fn release_of_null_and_stale_handles_is_a_no_op() {
    let mut b: Boundary<u8> = Boundary::new();
    b.counter_free(CounterHandle::null());
    let h = fresh_counter(&mut b, 3);
    b.counter_free(h);
    // Releasing again is a no-op; using the stale token is rejected.
    b.counter_free(h);
    let (st, v) = b.counter_value(h, false);
    assert_eq!(st, RustFfiDemoStatus::RustffiInvalidArg);
    assert!(v.is_none());
    // Other counters are untouched by any of it.
    let h2 = fresh_counter(&mut b, 8);
    b.counter_free(h);
    let (_, v2) = b.counter_value(h2, false);
    assert_eq!(v2, Some(8));
}

#[test]
fn operations_on_the_null_handle_report_null_argument() {
    let mut b: Boundary<u8> = Boundary::new();
    let null = CounterHandle::null();
    assert!(null.is_null());
    let (st1, _) = b.counter_increment(null, 1);
    assert_eq!(st1, RustFfiDemoStatus::RustffiNullArg);
    let (st2, _) = b.counter_value(null, false);
    assert_eq!(st2, RustFfiDemoStatus::RustffiNullArg);
    let (st3, _) = b.counter_reset(null);
    assert_eq!(st3, RustFfiDemoStatus::RustffiNullArg);
    assert_eq!(b.counter_set_label(null, None), RustFfiDemoStatus::RustffiNullArg);
    assert_eq!(b.counter_set_callback(null, Some(1)), RustFfiDemoStatus::RustffiNullArg);
    let (st4, _, _) = b.counter_get_label(null, true, 0, false);
    assert_eq!(st4, RustFfiDemoStatus::RustffiNullArg);
}

#[test]
fn failing_calls_record_a_message_and_successes_keep_it() {
    let mut b: Boundary<u8> = Boundary::new();
    assert!(b.last_error_message().is_none());
    let (st, _) = b.counter_increment(CounterHandle::null(), 1);
    assert_eq!(st, RustFfiDemoStatus::RustffiNullArg);
    let first = b.last_error_message().expect("a failure records a message").to_string();
    assert!(!first.is_empty());
    // A succeeding call leaves the recorded message untouched.
    let h = fresh_counter(&mut b, 0);
    let (st2, _) = b.counter_increment(h, 1);
    assert_eq!(st2, RustFfiDemoStatus::RustffiOk);
    assert_eq!(b.last_error_message(), Some(first.as_str()));
    // The next failure overwrites it.
    let st3 = b.counter_set_label(h, Some(vec![0xffu8]));
    assert_eq!(st3, RustFfiDemoStatus::RustffiInvalidArg);
    let second = b.last_error_message().expect("a failure records a message");
    assert!(!second.is_empty());
    assert_ne!(second, first.as_str());
}

#[test]
fn every_failure_path_has_a_nonempty_message() {
    let mut b: Boundary<u8> = Boundary::new();
    let (_, _) = b.counter_new(0, true);
    assert!(!b.last_error_message().unwrap().is_empty());
    let h = fresh_counter(&mut b, 0);
    let (_, _) = b.counter_value(h, true);
    assert!(!b.last_error_message().unwrap().is_empty());
    let (_, _, _) = b.counter_get_label(h, true, 0, true);
    assert!(!b.last_error_message().unwrap().is_empty());
    let (_, _, _) = b.counter_get_label(h, false, 0, false);
    assert!(!b.last_error_message().unwrap().is_empty());
}

#[test]
fn version_text_is_a_nonempty_constant() {
    let v1 = version();
    let v2 = version();
    assert!(!v1.is_empty());
    assert_eq!(v1, v2);
}

#[test]
fn status_codes_cross_the_boundary_as_documented() {
    assert_eq!(RustFfiDemoStatus::RustffiOk.code(), 0);
    assert_eq!(RustFfiDemoStatus::RustffiNullArg.code(), 1);
    assert_eq!(RustFfiDemoStatus::RustffiInvalidArg.code(), 2);
    assert_eq!(RustFfiDemoStatus::RustffiInternalError.code(), 3);
    assert!(RustFfiDemoStatus::RustffiOk.is_ok());
    assert!(!RustFfiDemoStatus::RustffiInvalidArg.is_ok());
}

#[test]
fn handles_round_trip_through_their_raw_tokens() {
    let mut b: Boundary<u8> = Boundary::new();
    let h = fresh_counter(&mut b, 17);
    let again = CounterHandle::from_raw(h.raw());
    let (st, v) = b.counter_value(again, false);
    assert_eq!(st, RustFfiDemoStatus::RustffiOk);
    assert_eq!(v, Some(17));
    assert_eq!(CounterHandle::from_raw(0), CounterHandle::null());
}
