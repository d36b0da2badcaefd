//! The evaluation core of a small, dynamically typed language in which a
//! value is what its traits say it is.
//!
//! A program is a tree of lists, names, numbers, texts, quoted forms and
//! blocks. Evaluating it reduces the tree to a value, against an environment
//! of variables, conformances and operators. The modules, leaves first:
//!
//! - `text`, `diagnostics`: numerals, locations, stacks of frames, errors;
//! - `traits`, `number`, `operators`: trait identifiers, decimal arithmetic,
//!   the precedence registry and the choice of the operator to apply;
//! - `model`: the mathematical model of values and environments;
//! - `value`, `environment`: the executable data and their views in the model;
//! - `lookup`: what traits a value has, directly or by conformance;
//! - `semantics`: what evaluation means, as functions of the model;
//! - `evaluate`: the evaluator, proved to compute what `semantics` says;
//! - `setup`: the conformances and names that an environment starts with;
//! - `convert`, `projects`: the syntax tree handed over by a parser, and the
//!   roots against which module names are resolved;
//! - `laws`: what holds of every evaluation.

pub mod convert;
pub mod diagnostics;
pub mod environment;
pub mod evaluate;
pub mod laws;
pub mod lookup;
pub mod model;
pub mod number;
pub mod operators;
pub mod projects;
pub mod semantics;
pub mod setup;
pub mod text;
pub mod traits;
pub mod value;
