use boa_dyncall::cstr::nul_terminated;
use boa_dyncall::fields::{check_field_index, field_push, rebuild_fields, FieldPush, SetFieldError};
use boa_dyncall::quit::{PollOutcome, QuitScan, SDL_QUIT_EVENT};
use boa_dyncall::text::push_decimal;
use boa_dyncall::value::{js_val_to_script_val, JsVal, ScriptVal};

#[test]
fn index_inside_the_struct_is_accepted() {
    assert_eq!(check_field_index(0, 2), Ok(()));
    assert_eq!(check_field_index(1, 2), Ok(()));
}

#[test]
fn index_outside_the_struct_is_refused() {
    let e = check_field_index(2, 2);
    assert_eq!(e, Err(SetFieldError::OutOfBounds { index: 2, count: 2 }));
    assert_eq!(SetFieldError::OutOfBounds { index: 2, count: 2 }.message(), "setField: index 2 out of bounds (2)");
    assert_eq!(check_field_index(0, 0), Err(SetFieldError::OutOfBounds { index: 0, count: 0 }));
}

#[test]
fn each_kind_of_field_is_pushed_back() {
    assert_eq!(field_push(&ScriptVal::Number(9)), FieldPush::CoerceNumber(9));
    assert_eq!(field_push(&ScriptVal::Integer(-9)), FieldPush::CoerceInteger(-9));
    assert_eq!(field_push(&ScriptVal::Str("t".to_string())), FieldPush::Str("t".to_string()));
    assert_eq!(field_push(&ScriptVal::Pointer(64)), FieldPush::Pointer(64));
    assert_eq!(field_push(&ScriptVal::Nil), FieldPush::CoerceInteger(0));
}

#[test]
fn rebuild_replaces_only_the_written_field() {
    let fields = vec![ScriptVal::Integer(1), ScriptVal::Number(2.0f64.to_bits()), ScriptVal::Pointer(16)];
    let new = js_val_to_script_val(&JsVal::Number(7.5f64.to_bits()));
    let plan = rebuild_fields(&fields, 1, &new);
    assert_eq!(
        plan,
        vec![FieldPush::CoerceInteger(1), FieldPush::CoerceNumber(7.5f64.to_bits()), FieldPush::Pointer(16)]
    );
}

#[test]
fn writing_a_string_stores_it_and_null_stores_zero() {
    let fields = vec![ScriptVal::Number(5), ScriptVal::Number(6)];
    let s = js_val_to_script_val(&JsVal::Str("yes".to_string()));
    assert_eq!(rebuild_fields(&fields, 0, &s), vec![FieldPush::Str("yes".to_string()), FieldPush::CoerceNumber(6)]);
    let n = js_val_to_script_val(&JsVal::Null);
    assert_eq!(rebuild_fields(&fields, 1, &n), vec![FieldPush::CoerceNumber(5), FieldPush::CoerceInteger(0)]);
}

#[test]
fn string_field_survives_a_write_elsewhere() {
    let fields = vec![ScriptVal::Str("name".to_string()), ScriptVal::Nil, ScriptVal::Integer(1)];
    let plan = rebuild_fields(&fields, 2, &ScriptVal::Integer(2));
    assert_eq!(plan, vec![FieldPush::Str("name".to_string()), FieldPush::CoerceInteger(0), FieldPush::CoerceInteger(2)]);
}

#[test]
fn writing_back_a_field_changes_nothing() {
    let fields = vec![ScriptVal::Integer(3), ScriptVal::Nil, ScriptVal::Pointer(2)];
    let a = rebuild_fields(&fields, 0, &fields[0]);
    let b = rebuild_fields(&fields, 2, &fields[2]);
    assert_eq!(a, b);
    assert_eq!(a, vec![FieldPush::CoerceInteger(3), FieldPush::CoerceInteger(0), FieldPush::Pointer(2)]);
}

#[test]
fn old_value_of_written_field_does_not_matter() {
    let one = vec![ScriptVal::Integer(3), ScriptVal::Integer(4)];
    let two = vec![ScriptVal::Str("old".to_string()), ScriptVal::Integer(4)];
    let v = ScriptVal::Integer(11);
    assert_eq!(rebuild_fields(&one, 0, &v), rebuild_fields(&two, 0, &v));
}

#[test]
fn quit_event_before_drain_is_reported() {
    let mut s = QuitScan::new();
    for o in [PollOutcome::Event(0x300), PollOutcome::Event(SDL_QUIT_EVENT), PollOutcome::Event(0x400), PollOutcome::Drained] {
        s = s.step(o);
    }
    assert_eq!(s, QuitScan { quit: true, done: true });
}

#[test]
fn no_quit_event_means_no_quit() {
    let mut s = QuitScan::new();
    for o in [PollOutcome::Event(0x300), PollOutcome::Drained] {
        s = s.step(o);
    }
    assert_eq!(s, QuitScan { quit: false, done: true });
}

#[test]
fn polls_after_drain_change_nothing() {
    let s = QuitScan::new().step(PollOutcome::Drained);
    assert_eq!(s.step(PollOutcome::Event(SDL_QUIT_EVENT)), s);
    assert_eq!(s, QuitScan { quit: false, done: true });
}

#[test]
fn empty_queue_ends_at_once() {
    let s = QuitScan::new();
    assert_eq!(s, QuitScan { quit: false, done: false });
    assert!(s.step(PollOutcome::Drained).done);
}

#[test]
fn path_is_nul_terminated() {
    assert_eq!(nul_terminated(r"C:\tools"), b"C:\\tools\0".to_vec());
    assert_eq!(nul_terminated(""), vec![0u8]);
}

#[test]
fn decimal_rendering() {
    let mut s = String::from("n=");
    push_decimal(&mut s, 0);
    assert_eq!(s, "n=0");
    let mut s = String::new();
    push_decimal(&mut s, 1234567890);
    assert_eq!(s, "1234567890");
    let mut s = String::new();
    push_decimal(&mut s, usize::MAX);
    assert_eq!(s, usize::MAX.to_string());
}

#[test]
fn other_values_written_store_integer_zero() {
    let fields = vec![ScriptVal::Number(5)];
    for v in [JsVal::Undefined, JsVal::Other, JsVal::ExStruct] {
        assert_eq!(rebuild_fields(&fields, 0, &js_val_to_script_val(&v)), vec![FieldPush::CoerceInteger(0)]);
    }
}
