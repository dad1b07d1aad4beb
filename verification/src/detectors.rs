//! The detector library: one boolean predicate per content category, each a
//! pure function of the full (trimmed) text.  The predicates deliberately
//! overlap; the classification pipeline's fixed order decides ties.

pub mod data;
pub mod lang;
pub mod markup;
pub mod special;
