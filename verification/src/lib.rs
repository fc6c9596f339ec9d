//! A convention for structuring error information across cooperating
//! modules: each module owns one error type whose variants are either local
//! reasons or wrapped dependency errors named after the dependency, and a
//! shared-behavior contract fixes a deliberately narrow error set for all
//! of its implementers.

pub mod a;
pub mod b;
