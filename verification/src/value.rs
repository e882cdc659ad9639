//! Values that cross between JavaScript and a foreign call.
//!
//! A JavaScript number and a script number are IEEE-754 doubles; they are
//! carried here by their 64-bit pattern, so that a value passes through
//! unchanged. A pointer is carried by its address.
use vstd::prelude::*;

verus! {

/// A JavaScript value, as far as the bindings read it.
#[derive(Debug, Clone, PartialEq, Eq)]
pub enum JsVal {
    Undefined,
    Null,
    /// A number, by the bit pattern of its double.
    Number(u64),
    /// A string, as escaped Rust text.
    Str(String),
    /// An object that is an `ExStruct` instance.
    ExStruct,
    /// Any other value: a boolean, a symbol, a big integer, another object.
    Other,
}

/// A value of the foreign-call layer.
#[derive(Debug, Clone, PartialEq, Eq)]
pub enum ScriptVal {
    Nil,
    Integer(i64),
    /// A double, by its bit pattern.
    Number(u64),
    Str(String),
    /// A raw pointer, by its address.
    Pointer(usize),
}

/// A JavaScript value that the bindings hand back to the engine.
#[derive(Debug, Clone, PartialEq, Eq)]
pub enum JsOut {
    Undefined,
    Null,
    /// The number whose double has this bit pattern.
    Number(u64),
    /// The number nearest to this integer.
    NumberFromInteger(i64),
    /// The number nearest to this address.
    NumberFromAddress(usize),
    Str(String),
}

/// The script value that a JavaScript value becomes as a scalar argument:
/// `null` and `undefined` are nil, numbers and strings keep their value, and
/// everything else is nil.
pub open spec fn spec_js_to_script(v: JsVal) -> ScriptVal {
    match v {
        JsVal::Undefined => ScriptVal::Nil,
        JsVal::Null => ScriptVal::Nil,
        JsVal::Number(b) => ScriptVal::Number(b),
        JsVal::Str(s) => ScriptVal::Str(s),
        JsVal::ExStruct => ScriptVal::Nil,
        JsVal::Other => ScriptVal::Nil,
    }
}

/// The JavaScript value that a call's return value becomes: nil is
/// `undefined`, integers and addresses become numbers.
pub open spec fn spec_script_to_js(v: ScriptVal) -> JsOut {
    match v {
        ScriptVal::Nil => JsOut::Undefined,
        ScriptVal::Integer(n) => JsOut::NumberFromInteger(n),
        ScriptVal::Number(b) => JsOut::Number(b),
        ScriptVal::Str(s) => JsOut::Str(s),
        ScriptVal::Pointer(p) => JsOut::NumberFromAddress(p),
    }
}

/// The JavaScript value that `getField` answers for a field: as a return
/// value, except that nil is `null`.
pub open spec fn spec_field_to_js(v: ScriptVal) -> JsOut {
    match v {
        ScriptVal::Nil => JsOut::Null,
        _ => spec_script_to_js(v),
    }
}

/// Converts a JavaScript argument into a script value.
pub fn js_val_to_script_val(v: &JsVal) -> (r: ScriptVal)
    ensures
        r == spec_js_to_script(*v),
        *v matches JsVal::Number(b) ==> r == ScriptVal::Number(b),
        *v matches JsVal::Str(t) ==> r == ScriptVal::Str(t),
        !(*v is Number || *v is Str) ==> r == ScriptVal::Nil,
{
    match v {
        JsVal::Undefined => ScriptVal::Nil,
        JsVal::Null => ScriptVal::Nil,
        JsVal::Number(b) => ScriptVal::Number(*b),
        JsVal::Str(s) => ScriptVal::Str(s.clone()),
        JsVal::ExStruct => ScriptVal::Nil,
        JsVal::Other => ScriptVal::Nil,
    }
}

/// Converts the return value of a foreign call into a JavaScript value.
pub fn script_val_to_jsvalue(v: ScriptVal) -> (r: JsOut)
    ensures
        r == spec_script_to_js(v),
        v matches ScriptVal::Integer(n) ==> r == JsOut::NumberFromInteger(n),
        v matches ScriptVal::Pointer(p) ==> r == JsOut::NumberFromAddress(p),
        v matches ScriptVal::Number(b) ==> r == JsOut::Number(b),
        v matches ScriptVal::Str(t) ==> r == JsOut::Str(t),
        v is Nil ==> r == JsOut::Undefined,
{
    match v {
        ScriptVal::Nil => JsOut::Undefined,
        ScriptVal::Integer(n) => JsOut::NumberFromInteger(n),
        ScriptVal::Number(b) => JsOut::Number(b),
        ScriptVal::Str(s) => JsOut::Str(s),
        ScriptVal::Pointer(p) => JsOut::NumberFromAddress(p),
    }
}

/// Converts a struct field that was read into the value `getField` answers.
pub fn field_to_jsvalue(v: ScriptVal) -> (r: JsOut)
    ensures
        r == spec_field_to_js(v),
        v matches ScriptVal::Integer(n) ==> r == JsOut::NumberFromInteger(n),
        v matches ScriptVal::Pointer(p) ==> r == JsOut::NumberFromAddress(p),
        v matches ScriptVal::Number(b) ==> r == JsOut::Number(b),
        v matches ScriptVal::Str(t) ==> r == JsOut::Str(t),
        v is Nil ==> r == JsOut::Null,
{
    match v {
        ScriptVal::Nil => JsOut::Null,
        other => script_val_to_jsvalue(other),
    }
}

/// A number or a string handed to a call as a scalar comes back, as a
/// return value, as the same JavaScript value; `null`, `undefined` and every
/// other value come back as `undefined`.
pub proof fn lemma_scalar_round_trip(v: JsVal)
    ensures
        spec_script_to_js(spec_js_to_script(v)) == (match v {
            JsVal::Number(b) => JsOut::Number(b),
            JsVal::Str(s) => JsOut::Str(s),
            _ => JsOut::Undefined,
        }),
{
}

/// `getField` and a call's return value agree on every script value but nil,
/// which `getField` answers with `null` and a return with `undefined`.
pub proof fn lemma_field_and_return_agree(v: ScriptVal)
    ensures
        v !is Nil ==> spec_field_to_js(v) == spec_script_to_js(v),
        v is Nil ==> spec_field_to_js(v) == JsOut::Null && spec_script_to_js(v) == JsOut::Undefined,
{
}

/// Every integer a call returns, or a field holds, reaches JavaScript as
/// the number of that integer, zero included.
pub proof fn lemma_integer_result_is_number(n: i64)
    ensures
        spec_script_to_js(ScriptVal::Integer(n)) == JsOut::NumberFromInteger(n),
        spec_field_to_js(ScriptVal::Integer(n)) == JsOut::NumberFromInteger(n),
{
}

/// A pointer a call returns, or a field holds, reaches JavaScript with its
/// whole address.
pub proof fn lemma_pointer_keeps_address(p: usize)
    ensures
        spec_script_to_js(ScriptVal::Pointer(p)) == JsOut::NumberFromAddress(p),
        spec_field_to_js(ScriptVal::Pointer(p)) == JsOut::NumberFromAddress(p),
{
}

/// Converting a return value loses nothing: different script values become
/// different JavaScript values.
pub proof fn lemma_return_conversion_injective(a: ScriptVal, b: ScriptVal)
    ensures
        spec_script_to_js(a) == spec_script_to_js(b) ==> a == b,
{
}

/// Reading a field loses nothing: different field values become different
/// JavaScript values.
pub proof fn lemma_field_conversion_injective(a: ScriptVal, b: ScriptVal)
    ensures
        spec_field_to_js(a) == spec_field_to_js(b) ==> a == b,
{
}

} // verus!
