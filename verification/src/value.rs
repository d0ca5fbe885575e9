//! The format-agnostic representation of a parsed document.

use vstd::prelude::*;

verus! {

/// A structured value produced by the format decoder: the in-memory,
/// format-agnostic form of a parsed document. Values are immutable once
/// constructed; every transformation produces a new value.
///
/// Numbers are carried as signed integers: every supported format keeps
/// integral numbers integral, and a non-integral number is carried as its
/// decimal text instead (see the decoder).
#[derive(Debug, PartialEq, Eq)]
pub enum StructuredValue {
    Null,
    Bool(bool),
    Number(i64),
    Text(String),
    Sequence(Vec<StructuredValue>),
    Mapping(Vec<(String, StructuredValue)>),
}

impl StructuredValue {
    /// A scalar is anything the scalar codec can render: everything but a
    /// sequence or a mapping.
    pub open spec fn is_scalar(self) -> bool {
        match self {
            StructuredValue::Sequence(_) => false,
            StructuredValue::Mapping(_) => false,
            _ => true,
        }
    }

    /// Executable test matching `is_scalar`.
    pub fn scalar(&self) -> (r: bool)
        ensures
            r == self.is_scalar(),
    {
        match self {
            StructuredValue::Sequence(_) => false,
            StructuredValue::Mapping(_) => false,
            _ => true,
        }
    }
}

/// Every mapping reachable inside `v` has pairwise distinct keys. The
/// decoder guarantees this of every document it produces.
pub open spec fn mappings_unique(v: StructuredValue) -> bool
    decreases v,
{
    match v {
        StructuredValue::Sequence(items) => forall|i: int|
            0 <= i < items@.len() ==> #[trigger] mappings_unique(items@[i]),
        StructuredValue::Mapping(pairs) => {
            &&& forall|i: int, j: int|
                0 <= i < j < pairs@.len() ==> pairs@[i].0@ != pairs@[j].0@
            &&& forall|i: int|
                0 <= i < pairs@.len() ==> #[trigger] mappings_unique(pairs@[i].1)
        },
        _ => true,
    }
}

} // verus!
