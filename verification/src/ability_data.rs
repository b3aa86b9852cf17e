//! The ability tree: every shape of ability that card text can describe.
//!
//! The nodes are plain immutable values. A node that holds a list has a
//! model in which the list is a mathematical sequence; the grammar is
//! stated over those models.

pub mod ability;
pub mod activated_ability;
pub mod collection_expression;
pub mod condition;
pub mod cost;
pub mod counting_expression;
pub mod effect;
pub mod predicate;
pub mod quantity_expression;
pub mod standard_effect;
pub mod static_ability;
pub mod trigger_event;
pub mod triggered_ability;
