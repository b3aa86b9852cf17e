//! The executable parser. Each function is proved to compute the rule of
//! the grammar that it is named after.

pub mod ability_parser;
pub mod activated_ability_parser;
pub mod card_predicate_parser;
pub mod condition_parser;
pub mod cost_parser;
pub mod counting_expression_parser;
pub mod determiner_parser;
pub mod effect_parser;
pub mod parser_utils;
pub mod quantity_expression_parser;
pub mod standard_effect_parser;
pub mod static_ability_parser;
pub mod trigger_event_parser;
pub mod triggered_ability_parser;
