use vstd::prelude::*;

verus! {

/// Describes which of the objects matching a predicate an effect applies
/// to, as in "all characters" or "up to 2 events".
#[derive(Debug, Copy, Clone, PartialEq, Eq, Structural)]
pub enum CollectionExpression {
    All,
    AnyNumberOf,
    AllButOne,
    EachOther,
    UpTo(u64),
    Exactly(u64),
    OrMore(u64),
}

} // verus!
