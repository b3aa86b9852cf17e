use vstd::prelude::*;

verus! {

/// Expression for describing a variable quantity of targets. For example, this
/// is used in parsing "Banish up to two other characters you control, then
/// materialize them."
#[derive(Debug, Copy, Clone, PartialEq, Eq, Structural)]
pub enum CountingExpression {
    All,
    AnyNumberOf,
    AllButOne,
    UpTo(u64),
    Exactly(u64),
    OrMore(u64),
}

} // verus!
