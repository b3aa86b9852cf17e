//! The language of card rules text, as mathematics: what each rule yields
//! at each offset of a text.

pub mod ability;
pub mod activated_ability;
pub mod card_predicate;
pub mod condition;
pub mod cost;
pub mod counting_expression;
pub mod determiner;
pub mod effect;
pub mod laws;
pub mod primitives;
pub mod quantity_expression;
pub mod standard_effect;
pub mod static_ability;
pub mod trigger_event;
pub mod triggered_ability;
