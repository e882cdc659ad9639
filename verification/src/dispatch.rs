//! Marshalling the arguments of a call to a described C function.
use vstd::prelude::*;
use crate::signature::{ArgInfo, ArgShape};
use crate::value::{JsVal, ScriptVal, js_val_to_script_val, spec_js_to_script};
use crate::text::{decimal, push_decimal};

verus! {

/// What is pushed for one argument of a call.
#[derive(Debug, Clone, PartialEq, Eq)]
pub enum ArgAction {
    /// Push, by value, the struct of the `ExStruct` given as argument `i`.
    PushStruct(usize),
    /// Push a pointer to the struct of the `ExStruct` given as argument `i`;
    /// the callee's writes land in that struct.
    PushStructMut(usize),
    /// Push this scalar.
    PushScalar(ScriptVal),
}

/// Why a call was refused before anything was pushed.
#[derive(Debug, Clone, Copy, PartialEq, Eq)]
pub enum DispatchError {
    /// The number of JavaScript arguments differs from the descriptor's.
    ArgCount { expected: usize, got: usize },
    /// Argument `index` must be an `ExStruct` and is not.
    ExpectedExStruct { index: usize },
}

/// Whether a struct can be taken from argument `a` for parameter `p`: the
/// parameter's type carries a layout and the value is an `ExStruct`.
pub open spec fn carries_struct(p: ArgInfo, a: JsVal) -> bool {
    p.has_layout && a is ExStruct
}

/// Whether argument `a` is acceptable for parameter `p`.
pub open spec fn arg_accepted(p: ArgInfo, a: JsVal) -> bool {
    match p.shape {
        ArgShape::Struct => carries_struct(p, a),
        ArgShape::StructPointer => carries_struct(p, a),
        ArgShape::Scalar => true,
    }
}

/// What is pushed for argument `i`, value `a`, of parameter `p`.
pub open spec fn spec_action(i: usize, p: ArgInfo, a: JsVal) -> ArgAction {
    match p.shape {
        ArgShape::Struct => ArgAction::PushStruct(i),
        ArgShape::StructPointer => ArgAction::PushStructMut(i),
        ArgShape::Scalar => ArgAction::PushScalar(spec_js_to_script(a)),
    }
}

/// Any JavaScript value is accepted for a scalar parameter, and a refused
/// argument is always one whose parameter takes a struct.
pub proof fn lemma_only_struct_arguments_refused(p: ArgInfo, a: JsVal)
    ensures
        p.shape == ArgShape::Scalar ==> arg_accepted(p, a),
        !arg_accepted(p, a) ==> (p.shape == ArgShape::Struct || p.shape == ArgShape::StructPointer),
{
}

/// A struct or struct-pointer parameter accepts exactly the `ExStruct`
/// values whose struct can be locked: an argument that is no `ExStruct`, or a
/// parameter type with no layout, is refused.
pub proof fn lemma_struct_parameter_needs_exstruct(p: ArgInfo, a: JsVal)
    ensures
        p.shape != ArgShape::Scalar && arg_accepted(p, a) ==> a is ExStruct && p.has_layout,
        p.shape != ArgShape::Scalar && a is ExStruct && p.has_layout ==> arg_accepted(p, a),
        p.shape != ArgShape::Scalar && arg_accepted(p, a) ==> carries_struct(p, a),
{
}

impl DispatchError {
    pub open spec fn spec_message(self) -> Seq<char> {
        match self {
            DispatchError::ArgCount { expected, got } =>
                "expected "@ + decimal(expected as nat) + " args, got "@ + decimal(got as nat),
            DispatchError::ExpectedExStruct { index } =>
                "arg "@ + decimal(index as nat) + ": expected ExStruct"@,
        }
    }

    /// The text of the JavaScript error raised for this error.
    pub fn message(&self) -> (s: String)
        ensures
            s@ == self.spec_message(),
    {
        match self {
            DispatchError::ArgCount { expected, got } => {
                let mut s = String::from_str("expected ");
                push_decimal(&mut s, *expected);
                s.append(" args, got ");
                push_decimal(&mut s, *got);
                s
            },
            DispatchError::ExpectedExStruct { index } => {
                let mut s = String::from_str("arg ");
                push_decimal(&mut s, *index);
                s.append(": expected ExStruct");
                s
            },
        }
    }
}

/// Plans the pushes of a call of the function described by `params` with the
/// JavaScript arguments `args`: one action per argument, in order, or the
/// first reason to refuse the call.
pub fn plan_dispatch(params: &[ArgInfo], args: &[JsVal]) -> (r: Result<Vec<ArgAction>, DispatchError>)
    ensures
        r matches Err(DispatchError::ArgCount { .. }) <==> params@.len() != args@.len(),
        r matches Err(DispatchError::ArgCount { expected, got }) ==> expected == params@.len() && got == args@.len(),
        r matches Err(DispatchError::ExpectedExStruct { index }) ==> {
            &&& params@.len() == args@.len()
            &&& index < params@.len()
            &&& !arg_accepted(params@[index as int], args@[index as int])
            &&& forall|j: int| 0 <= j < index ==> arg_accepted(#[trigger] params@[j], args@[j])
        },
        r matches Ok(plan) ==> {
            &&& params@.len() == args@.len()
            &&& plan@.len() == args@.len()
            &&& forall|j: int| 0 <= j < args@.len() ==> arg_accepted(#[trigger] params@[j], args@[j])
            &&& forall|j: int| 0 <= j < args@.len() ==> #[trigger] plan@[j] == spec_action(j as usize, params@[j], args@[j])
            &&& forall|j: int| 0 <= j < args@.len() && (#[trigger] params@[j]).shape != ArgShape::Scalar
                ==> params@[j].has_layout && args@[j] is ExStruct
        },
{
    if params.len() != args.len() {
        return Err(DispatchError::ArgCount { expected: params.len(), got: args.len() });
    }
    let mut plan: Vec<ArgAction> = Vec::new();
    let mut i: usize = 0;
    while i < args.len()
        invariant
            params@.len() == args@.len(),
            i <= args@.len(),
            plan@.len() == i,
            forall|j: int| 0 <= j < i ==> arg_accepted(#[trigger] params@[j], args@[j]),
            forall|j: int| 0 <= j < i ==> #[trigger] plan@[j] == spec_action(j as usize, params@[j], args@[j]),
        decreases args@.len() - i,
    {
        let p = params[i];
        let carries = p.has_layout && matches!(args[i], JsVal::ExStruct);
        let action = match p.shape {
            ArgShape::Struct => {
                if !carries {
                    return Err(DispatchError::ExpectedExStruct { index: i });
                }
                ArgAction::PushStruct(i)
            },
            ArgShape::StructPointer => {
                if !carries {
                    return Err(DispatchError::ExpectedExStruct { index: i });
                }
                ArgAction::PushStructMut(i)
            },
            ArgShape::Scalar => ArgAction::PushScalar(js_val_to_script_val(&args[i])),
        };
        plan.push(action);
        i = i + 1;
    }
    Ok(plan)
}

/// Everything the host needs to make a call: which arguments' structs to
/// lock before pushing, the pushes to make, and, where an argument is
/// refused, the refusal to report after the pushes that come before it.
#[derive(Debug, Clone, PartialEq, Eq)]
pub struct CallPlan {
    /// `locks[i]`: the struct of argument `i` is locked for the call.
    pub locks: Vec<bool>,
    /// The pushes, in order: every argument's, or those before the refused one.
    pub pushes: Vec<ArgAction>,
    /// The refusal reported once `pushes` are made, if any.
    pub refusal: Option<DispatchError>,
}

/// Plans a call as [`plan_dispatch`] does, and also says which structs are
/// locked (those of arguments whose type carries a layout and that are an
/// `ExStruct`) and which pushes precede a refusal.
pub fn plan_call(params: &[ArgInfo], args: &[JsVal]) -> (r: Result<CallPlan, DispatchError>)
    ensures
        r is Err <==> params@.len() != args@.len(),
        r matches Err(e) ==> e == (DispatchError::ArgCount { expected: params@.len() as usize, got: args@.len() as usize }),
        r matches Ok(c) ==> {
            &&& params@.len() == args@.len()
            &&& c.locks@.len() == args@.len()
            &&& forall|j: int| 0 <= j < args@.len() ==> #[trigger] c.locks@[j] == carries_struct(params@[j], args@[j])
            &&& c.pushes@.len() <= args@.len()
            &&& forall|j: int| 0 <= j < c.pushes@.len() ==> arg_accepted(#[trigger] params@[j], args@[j])
            &&& forall|j: int| 0 <= j < c.pushes@.len() ==> #[trigger] c.pushes@[j] == spec_action(j as usize, params@[j], args@[j])
            &&& forall|j: int| 0 <= j < c.pushes@.len() && (#[trigger] params@[j]).shape != ArgShape::Scalar
                ==> args@[j] is ExStruct && c.locks@[j]
            &&& c.refusal is None ==> c.pushes@.len() == args@.len()
            &&& c.refusal is Some ==> {
                &&& c.pushes@.len() < args@.len()
                &&& c.refusal == Some(DispatchError::ExpectedExStruct { index: c.pushes@.len() as usize })
                &&& !arg_accepted(params@[c.pushes@.len() as int], args@[c.pushes@.len() as int])
            }
        },
{
    if params.len() != args.len() {
        return Err(DispatchError::ArgCount { expected: params.len(), got: args.len() });
    }
    let mut locks: Vec<bool> = Vec::new();
    let mut i: usize = 0;
    while i < args.len()
        invariant
            params@.len() == args@.len(),
            i <= args@.len(),
            locks@.len() == i,
            forall|j: int| 0 <= j < i ==> #[trigger] locks@[j] == carries_struct(params@[j], args@[j]),
        decreases args@.len() - i,
    {
        locks.push(params[i].has_layout && matches!(args[i], JsVal::ExStruct));
        i = i + 1;
    }
    let mut pushes: Vec<ArgAction> = Vec::new();
    let mut k: usize = 0;
    while k < args.len()
        invariant
            params@.len() == args@.len(),
            k <= args@.len(),
            pushes@.len() == k,
            locks@.len() == args@.len(),
            forall|j: int| 0 <= j < args@.len() ==> #[trigger] locks@[j] == carries_struct(params@[j], args@[j]),
            forall|j: int| 0 <= j < k ==> arg_accepted(#[trigger] params@[j], args@[j]),
            forall|j: int| 0 <= j < k ==> #[trigger] pushes@[j] == spec_action(j as usize, params@[j], args@[j]),
        decreases args@.len() - k,
    {
        let p = params[k];
        let carries = p.has_layout && matches!(args[k], JsVal::ExStruct);
        let action = match p.shape {
            ArgShape::Struct => {
                if !carries {
                    return Ok(CallPlan { locks, pushes, refusal: Some(DispatchError::ExpectedExStruct { index: k }) });
                }
                ArgAction::PushStruct(k)
            },
            ArgShape::StructPointer => {
                if !carries {
                    return Ok(CallPlan { locks, pushes, refusal: Some(DispatchError::ExpectedExStruct { index: k }) });
                }
                ArgAction::PushStructMut(k)
            },
            ArgShape::Scalar => ArgAction::PushScalar(js_val_to_script_val(&args[k])),
        };
        pushes.push(action);
        k = k + 1;
    }
    Ok(CallPlan { locks, pushes, refusal: None })
}

} // verus!
