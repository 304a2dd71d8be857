//! Small verified companion library for a set of introductory snippets:
//! integer arithmetic, simple classification by ranges and cases, bounded
//! lookup in a vector, and a helper that draws a bounded random integer.

pub mod arith;
pub mod random;
pub mod snippets;
