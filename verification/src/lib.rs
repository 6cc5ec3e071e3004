//! A lint rule that flags `assert!(r.is_ok())` and proposes `r.unwrap()`.
//!
//! An assertion that a result is `Ok` throws the error away when it fails;
//! unwrapping the result shows it. The rule works on plain values that stand
//! for what a host compiler knows of an expression: the tree in [`ir`], the
//! locations in [`span`], the loaded source text in [`source`]. It runs in
//! stages, each of which may end the run without a finding: [`macros`] finds
//! the assertion behind a node and takes it apart, [`condition`] matches the
//! call of `is_ok`, [`source`] reads the receiver's text, and [`emit`] builds
//! the [`finding`]. [`rule`] puts the stages in a row, and [`laws`] states
//! what holds of the rule on every node.

pub mod condition;
pub mod emit;
pub mod finding;
pub mod ir;
pub mod laws;
pub mod macros;
pub mod rule;
pub mod source;
pub mod span;
