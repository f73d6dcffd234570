//! Type switches: booleans that live in the type system, and storages that hold
//! one of two values depending on such a boolean.
mod bools;
mod switch;
mod switch_ops;
mod switch_traits;

pub mod laws;

pub mod bool_macro_help;

pub use bools::{
    bool_of, group_cond_values, lemma_cond_values, lemma_true_false_values, And, Bool, BoolAnd, BoolNot, BoolOr, BoolXOr, Cond, False, Not,
    Or, True, XOr,
};
pub use switch::{
    Branch, BoolEither, Switch, SwitchBorrow, SwitchBuild, SwitchCell, SwitchStorage, SwitchUnion,
};
pub use switch_ops::{switch_map, switch_match, switch_match_mut, switch_new};
