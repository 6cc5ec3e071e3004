//! The shape of the asserted condition.

use crate::ir::{Expr, ExprKind};
use vstd::prelude::*;
use vstd::string::*;

verus! {

/// The name of the method whose call the rule looks for.
pub open spec fn is_ok_name() -> Seq<char> {
    "is_ok"@
}

/// The receiver of `condition`, where `condition` is a call of a method
/// named `is_ok` that is given nothing but its receiver. Only the name is
/// looked at, never the receiver's type.
pub open spec fn spec_is_ok_receiver(condition: &Expr) -> Option<&Expr> {
    match condition.kind {
        ExprKind::MethodCall { method, receiver, args } => if method@ == is_ok_name()
            && args@.len() == 0 {
            Some(&*receiver)
        } else {
            None
        },
        _ => None,
    }
}

/// Matches `receiver.is_ok()` and hands out the receiver.
#[verifier::when_used_as_spec(spec_is_ok_receiver)]
pub fn is_ok_receiver(condition: &Expr) -> (found: Option<&Expr>)
    ensures
        found == spec_is_ok_receiver(condition),
{
    match &condition.kind {
        ExprKind::MethodCall { method, receiver, args } => {
            if *method == String::from_str("is_ok") && args.len() == 0 {
                Some(&**receiver)
            } else {
                None
            }
        },
        _ => None,
    }
}

} // verus!
