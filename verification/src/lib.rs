//! Differential regression testing for a library component: given the
//! published release of the component (the base origin) and a candidate local
//! revision (the next origin), determine whether every reverse dependent that
//! builds against base still builds against next.
//!
//! The verified core is the per-dependent protocol — resolve the name to a
//! concrete version, build against base, build against next, classify into
//! one of four terminal verdicts — together with the in-order, fault-contained
//! collection of a whole batch and its reduction to an overall pass/fail.

pub mod future;
pub mod machine;
pub mod origin;
pub mod registry;
pub mod report;
pub mod results;
