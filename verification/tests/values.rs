use boa_dyncall::value::{field_to_jsvalue, js_val_to_script_val, script_val_to_jsvalue, JsOut, JsVal, ScriptVal};

#[test]
fn number_argument_keeps_its_bits() {
    let bits = 2.5f64.to_bits();
    assert_eq!(js_val_to_script_val(&JsVal::Number(bits)), ScriptVal::Number(bits));
}

#[test]
fn string_argument_keeps_its_text() {
    let v = JsVal::Str("hello".to_string());
    assert_eq!(js_val_to_script_val(&v), ScriptVal::Str("hello".to_string()));
}

#[test]
fn null_undefined_and_others_become_nil() {
    assert_eq!(js_val_to_script_val(&JsVal::Null), ScriptVal::Nil);
    assert_eq!(js_val_to_script_val(&JsVal::Undefined), ScriptVal::Nil);
    assert_eq!(js_val_to_script_val(&JsVal::ExStruct), ScriptVal::Nil);
    assert_eq!(js_val_to_script_val(&JsVal::Other), ScriptVal::Nil);
}

#[test]
fn return_values_map_to_javascript() {
    assert_eq!(script_val_to_jsvalue(ScriptVal::Nil), JsOut::Undefined);
    assert_eq!(script_val_to_jsvalue(ScriptVal::Integer(42)), JsOut::NumberFromInteger(42));
    assert_eq!(script_val_to_jsvalue(ScriptVal::Number(1.5f64.to_bits())), JsOut::Number(1.5f64.to_bits()));
    assert_eq!(script_val_to_jsvalue(ScriptVal::Str("x".to_string())), JsOut::Str("x".to_string()));
    assert_eq!(script_val_to_jsvalue(ScriptVal::Pointer(0x1000)), JsOut::NumberFromAddress(0x1000));
}

#[test]
fn get_field_answers_null_for_nil() {
    assert_eq!(field_to_jsvalue(ScriptVal::Nil), JsOut::Null);
    assert_eq!(field_to_jsvalue(ScriptVal::Integer(-3)), JsOut::NumberFromInteger(-3));
    assert_eq!(field_to_jsvalue(ScriptVal::Pointer(8)), JsOut::NumberFromAddress(8));
}

#[test]
fn scalar_round_trip_on_values() {
    let bits = (-0.25f64).to_bits();
    let back = script_val_to_jsvalue(js_val_to_script_val(&JsVal::Number(bits)));
    assert_eq!(back, JsOut::Number(bits));
    let back = script_val_to_jsvalue(js_val_to_script_val(&JsVal::Str("abc".to_string())));
    assert_eq!(back, JsOut::Str("abc".to_string()));
    let back = script_val_to_jsvalue(js_val_to_script_val(&JsVal::Null));
    assert_eq!(back, JsOut::Undefined);
}

#[test]
fn field_and_return_agree_but_on_nil() {
    for v in [ScriptVal::Integer(1), ScriptVal::Number(7), ScriptVal::Pointer(3), ScriptVal::Str("s".to_string())] {
        assert_eq!(field_to_jsvalue(v.clone()), script_val_to_jsvalue(v));
    }
    assert_ne!(field_to_jsvalue(ScriptVal::Nil), script_val_to_jsvalue(ScriptVal::Nil));
}
