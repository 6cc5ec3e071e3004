//! Macro calls: finding the call behind a node, telling which macro it is,
//! and taking an assertion apart into its condition and its message.

use crate::ir::{Expr, ExprKind, MacroCall, MacroDef};
use crate::span::Span;
use vstd::prelude::*;
use vstd::string::*;

verus! {

/// What an assertion does when its condition fails.
#[derive(Debug, PartialEq, Eq)]
pub enum PanicExpn<'a> {
    /// The call gave no message of its own.
    Empty,
    /// The call gave a message; the node is its first argument after the
    /// condition.
    Custom(&'a Expr),
}

/// The diagnostic name under which the host knows the plain boolean
/// assertion macro.
pub open spec fn assert_macro_name() -> Seq<char> {
    "assert_macro"@
}

/// Whether the definition is the plain boolean assertion macro, and none of
/// its relatives that compare two values.
pub open spec fn spec_is_plain_assert(def: &MacroDef) -> bool {
    def.diagnostic_name matches Some(name) && name@ == assert_macro_name()
}

/// The macro call that `e` is the outermost node of, where that call stands
/// in text the user wrote, rather than inside another expansion, and is one
/// of the plain boolean assertion macro.
pub open spec fn spec_assert_call(e: &Expr) -> Option<&MacroCall> {
    match e.kind {
        ExprKind::MacroExpansion { call, args } => if call.call_span.is_authored()
            && spec_is_plain_assert(&call.def) {
            Some(&call)
        } else {
            None
        },
        _ => None,
    }
}

/// The condition of the assertion that `e` expands, and what the assertion
/// does when the condition fails: none where `e` is no macro expansion,
/// where `expansion` is not the span of that expansion, or where the call
/// has no argument.
pub open spec fn spec_assert_args<'a>(e: &'a Expr, expansion: Span) -> Option<
    (&'a Expr, PanicExpn<'a>),
> {
    match e.kind {
        ExprKind::MacroExpansion { call, args } => if call.expansion_span == expansion
            && args@.len() >= 1 {
            Some(
                (
                    &args@[0],
                    if args@.len() == 1 {
                        PanicExpn::Empty
                    } else {
                        PanicExpn::Custom(&args@[1])
                    },
                ),
            )
        } else {
            None
        },
        _ => None,
    }
}

/// Tells the plain boolean assertion macro from every other macro.
#[verifier::when_used_as_spec(spec_is_plain_assert)]
pub fn is_plain_assert(def: &MacroDef) -> (plain: bool)
    ensures
        plain == spec_is_plain_assert(def),
{
    match &def.diagnostic_name {
        Some(name) => *name == String::from_str("assert_macro"),
        None => false,
    }
}

/// Resolves the macro call behind a node. The node must be the outermost one
/// of the expansion, and the macro the plain boolean assertion.
#[verifier::when_used_as_spec(spec_assert_call)]
pub fn resolve_assert_call(e: &Expr) -> (found: Option<&MacroCall>)
    ensures
        found == spec_assert_call(e),
{
    match &e.kind {
        ExprKind::MacroExpansion { call, args: _ } => {
            if call.call_span.is_authored() && is_plain_assert(&call.def) {
                Some(call)
            } else {
                None
            }
        },
        _ => None,
    }
}

/// Takes an assertion apart: its first argument is the condition; further
/// arguments make a custom message, and their absence leaves it empty.
#[verifier::when_used_as_spec(spec_assert_args)]
pub fn extract_assert_args<'a>(e: &'a Expr, expansion: Span) -> (found: Option<
    (&'a Expr, PanicExpn<'a>),
>)
    ensures
        found == spec_assert_args(e, expansion),
{
    match &e.kind {
        ExprKind::MacroExpansion { call, args } => {
            if call.expansion_span == expansion && args.len() >= 1 {
                if args.len() == 1 {
                    Some((&args[0], PanicExpn::Empty))
                } else {
                    Some((&args[0], PanicExpn::Custom(&args[1])))
                }
            } else {
                None
            }
        },
        _ => None,
    }
}

} // verus!
