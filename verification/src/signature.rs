//! The argument list of a described C function, as the bindings read it.
use vstd::prelude::*;

verus! {

/// How an argument is passed.
#[derive(Debug, Clone, Copy, PartialEq, Eq)]
pub enum ArgShape {
    /// A struct passed by value.
    Struct,
    /// A pointer to a struct, through which the callee may write.
    StructPointer,
    /// Anything else: a number, a string, a plain pointer.
    Scalar,
}

/// One argument of a function descriptor.
#[derive(Debug, Clone, Copy, PartialEq, Eq)]
pub struct ArgInfo {
    pub shape: ArgShape,
    /// Whether the argument's type carries a struct layout.
    pub has_layout: bool,
}

/// Why no struct could be made from a descriptor.
#[derive(Debug, Clone, Copy, PartialEq, Eq)]
pub enum LayoutError {
    /// No argument of the descriptor carries a struct layout.
    NoStructType,
}

impl LayoutError {
    pub open spec fn spec_message(self) -> Seq<char> {
        "no struct type found in descriptor"@
    }

    /// The text of the JavaScript error raised for this error.
    pub fn message(&self) -> (s: String)
        ensures
            s@ == self.spec_message(),
    {
        String::from_str("no struct type found in descriptor")
    }
}

/// Where the layout of a new `ExStruct` is taken from.
#[derive(Debug, Clone, Copy, PartialEq, Eq)]
pub enum LayoutSource {
    /// The argument at this position.
    Arg(usize),
    /// The return type.
    Return,
}

/// Picks the type whose layout a new `ExStruct` takes: the first argument of
/// `params` whose type carries a struct layout, or else the return type `ret`
/// if it carries one.
pub fn struct_from_descriptor(params: &[ArgInfo], ret: ArgInfo) -> (r: Result<LayoutSource, LayoutError>)
    ensures
        r matches Ok(LayoutSource::Arg(i)) ==> i < params@.len() && params@[i as int].has_layout
            && forall|j: int| 0 <= j < i ==> !(#[trigger] params@[j]).has_layout,
        r matches Ok(LayoutSource::Return) ==> ret.has_layout
            && forall|j: int| 0 <= j < params@.len() ==> !(#[trigger] params@[j]).has_layout,
        r is Err <==> !ret.has_layout
            && forall|j: int| 0 <= j < params@.len() ==> !(#[trigger] params@[j]).has_layout,
{
    let mut i: usize = 0;
    while i < params.len()
        invariant
            i <= params@.len(),
            forall|j: int| 0 <= j < i ==> !(#[trigger] params@[j]).has_layout,
        decreases params@.len() - i,
    {
        if params[i].has_layout {
            return Ok(LayoutSource::Arg(i));
        }
        i = i + 1;
    }
    if ret.has_layout {
        Ok(LayoutSource::Return)
    } else {
        Err(LayoutError::NoStructType)
    }
}

} // verus!
