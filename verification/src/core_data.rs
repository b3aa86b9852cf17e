//! Small value types shared by the ability tree, the grammar and the
//! display data.

pub mod character_type;
pub mod display_types;
pub mod identifiers;
pub mod numerics;
pub mod types;
