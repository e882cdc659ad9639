//! Rewriting one field of an `ExStruct`.
//!
//! A struct is rewritten whole: every field is read, the chosen one is
//! replaced, the struct is cleared and each field is pushed back in order.
use vstd::prelude::*;
use crate::value::{JsVal, ScriptVal, spec_js_to_script};
use crate::text::{decimal, push_decimal};

verus! {

/// How a field is pushed back into a struct.
#[derive(Debug, Clone, PartialEq, Eq)]
pub enum FieldPush {
    /// Push this double (by bit pattern), converted to the field's type.
    CoerceNumber(u64),
    /// Push this integer, converted to the field's type.
    CoerceInteger(i64),
    /// Push this address as a pointer field.
    Pointer(usize),
    /// Push this text as a string field.
    Str(String),
}

/// Why `setField` refused an index.
#[derive(Debug, Clone, Copy, PartialEq, Eq)]
pub enum SetFieldError {
    OutOfBounds { index: usize, count: usize },
}

/// How a field holding `v` is pushed: a number, an integer, a pointer and a
/// string as themselves (numbers and integers converted to the field's type),
/// and nil as the integer zero converted to the field's type.
pub open spec fn spec_field_push(v: ScriptVal) -> FieldPush {
    match v {
        ScriptVal::Number(b) => FieldPush::CoerceNumber(b),
        ScriptVal::Integer(n) => FieldPush::CoerceInteger(n),
        ScriptVal::Str(s) => FieldPush::Str(s),
        ScriptVal::Pointer(p) => FieldPush::Pointer(p),
        ScriptVal::Nil => FieldPush::CoerceInteger(0),
    }
}

/// The pushes that rebuild a struct whose fields read `fields` after field
/// `idx` is set to `value`.
pub open spec fn spec_rebuild(fields: Seq<ScriptVal>, idx: int, value: ScriptVal) -> Seq<FieldPush> {
    Seq::new(fields.len(), |j: int| spec_field_push(if j == idx { value } else { fields[j] }))
}

impl SetFieldError {
    pub open spec fn spec_message(self) -> Seq<char> {
        match self {
            SetFieldError::OutOfBounds { index, count } =>
                "setField: index "@ + decimal(index as nat) + " out of bounds ("@ + decimal(count as nat) + ")"@,
        }
    }

    /// The text of the JavaScript error raised for this error.
    pub fn message(&self) -> (s: String)
        ensures
            s@ == self.spec_message(),
    {
        match self {
            SetFieldError::OutOfBounds { index, count } => {
                let mut s = String::from_str("setField: index ");
                push_decimal(&mut s, *index);
                s.append(" out of bounds (");
                push_decimal(&mut s, *count);
                s.append(")");
                s
            },
        }
    }
}

/// Checks the index of `setField` against the struct's field count.
pub fn check_field_index(index: usize, count: usize) -> (r: Result<(), SetFieldError>)
    ensures
        r is Ok <==> index < count,
        r matches Err(e) ==> e == (SetFieldError::OutOfBounds { index, count }),
{
    if index >= count {
        Err(SetFieldError::OutOfBounds { index, count })
    } else {
        Ok(())
    }
}

/// How one field value is pushed back.
pub fn field_push(v: &ScriptVal) -> (r: FieldPush)
    ensures
        r == spec_field_push(*v),
{
    match v {
        ScriptVal::Number(b) => FieldPush::CoerceNumber(*b),
        ScriptVal::Integer(n) => FieldPush::CoerceInteger(*n),
        ScriptVal::Str(s) => FieldPush::Str(s.clone()),
        ScriptVal::Pointer(p) => FieldPush::Pointer(*p),
        ScriptVal::Nil => FieldPush::CoerceInteger(0),
    }
}

/// The pushes that rebuild a struct, read as `fields`, with field `idx` set
/// to `value`.
pub fn rebuild_fields(fields: &[ScriptVal], idx: usize, value: &ScriptVal) -> (r: Vec<FieldPush>)
    requires
        idx < fields@.len(),
    ensures
        r@ == spec_rebuild(fields@, idx as int, *value),
{
    let mut out: Vec<FieldPush> = Vec::new();
    let mut j: usize = 0;
    while j < fields.len()
        invariant
            idx < fields@.len(),
            j <= fields@.len(),
            out@ =~= spec_rebuild(fields@, idx as int, *value).take(j as int),
        decreases fields@.len() - j,
    {
        let step = if j == idx { field_push(value) } else { field_push(&fields[j]) };
        out.push(step);
        j = j + 1;
    }
    out
}

/// Every field other than the written one is pushed back as it was read,
/// and the written one is pushed as the new value.
pub proof fn lemma_only_written_field_changes(fields: Seq<ScriptVal>, idx: int, value: ScriptVal, j: int)
    requires
        0 <= idx < fields.len(),
        0 <= j < fields.len(),
    ensures
        spec_rebuild(fields, idx, value).len() == fields.len(),
        j != idx ==> spec_rebuild(fields, idx, value)[j] == spec_field_push(fields[j]),
        spec_rebuild(fields, idx, value)[idx] == spec_field_push(value),
{
}

/// A push loses nothing but the difference between nil and the integer
/// zero: two other values pushed the same way are the same value.
pub proof fn lemma_push_keeps_value(a: ScriptVal, b: ScriptVal)
    ensures
        spec_field_push(a) == spec_field_push(b) ==> a == b
            || ((a is Nil || a == ScriptVal::Integer(0)) && (b is Nil || b == ScriptVal::Integer(0))),
{
}

/// The written field is pushed as the new value, whatever it held before.
pub proof fn lemma_old_value_irrelevant(fields: Seq<ScriptVal>, idx: int, old_value: ScriptVal, value: ScriptVal)
    requires
        0 <= idx < fields.len(),
    ensures
        spec_rebuild(fields.update(idx, old_value), idx, value) == spec_rebuild(fields, idx, value),
{
    assert(spec_rebuild(fields.update(idx, old_value), idx, value) =~= spec_rebuild(fields, idx, value));
}

/// Writing a field's own value back pushes every field as it was read.
pub proof fn lemma_write_back_same(fields: Seq<ScriptVal>, i: int)
    requires
        0 <= i < fields.len(),
    ensures
        spec_rebuild(fields, i, fields[i]) == Seq::new(fields.len(), |j: int| spec_field_push(fields[j])),
{
    assert(spec_rebuild(fields, i, fields[i]) =~= Seq::new(fields.len(), |j: int| spec_field_push(fields[j])));
}

/// What a JavaScript value given to `setField` is pushed as: a number and a
/// string as themselves, and anything else as the integer zero.
pub proof fn lemma_set_field_from_js(v: JsVal)
    ensures
        spec_field_push(spec_js_to_script(v)) == (match v {
            JsVal::Number(b) => FieldPush::CoerceNumber(b),
            JsVal::Str(s) => FieldPush::Str(s),
            _ => FieldPush::CoerceInteger(0),
        }),
{
}

} // verus!
