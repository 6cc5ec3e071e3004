//! The rule itself: the stages in a row, from a node to at most one finding.

use crate::condition::{is_ok_name, is_ok_receiver};
use crate::emit::{assert_ok_finding, build_finding, emit};
use crate::finding::{reported, Finding, FindingView, SeverityClass};
use crate::ir::{Expr, ExprKind, MacroCall};
use crate::macros::{extract_assert_args, is_plain_assert, resolve_assert_call, PanicExpn};
use crate::source::{text_at, SourceMap};
use crate::span::Span;
use vstd::prelude::*;

verus! {

/// What the host's catalogue of rules shows of a rule.
#[derive(Clone, Copy, Debug, PartialEq, Eq)]
pub struct RuleDescriptor {
    pub id: &'static str,
    pub severity_class: SeverityClass,
    pub summary: &'static str,
    pub what_it_does: &'static str,
    pub why_is_this_bad: &'static str,
    pub known_problems: &'static str,
    pub example: &'static str,
}

/// The rule that flags `assert!(r.is_ok())`. It keeps no state from one node
/// to the next.
#[derive(Clone, Copy, Debug, PartialEq, Eq)]
pub struct AssertOk {}

/// The call and the receiver for which the rule speaks up: `e` is the
/// outermost node of a plain boolean assertion that the user wrote, the
/// assertion has its condition and no message, and the condition is a call of
/// `is_ok` on the receiver with no further argument.
pub open spec fn flagged_assertion(e: &Expr) -> Option<(&MacroCall, &Expr)> {
    match e.kind {
        ExprKind::MacroExpansion { call, args } => if call.call_span.is_authored()
            && is_plain_assert(&call.def) && args@.len() == 1 {
            match args@[0].kind {
                ExprKind::MethodCall { method, receiver, args: further } => if method@
                    == is_ok_name() && further@.len() == 0 {
                    Some((&call, &*receiver))
                } else {
                    None
                },
                _ => None,
            }
        } else {
            None
        },
        _ => None,
    }
}

/// Where the assertion stands and how its receiver reads, for a node that
/// the rule speaks up for and whose receiver has source text among `files`.
pub open spec fn flagged_text(files: Seq<Seq<char>>, e: &Expr) -> Option<(Span, Seq<char>)> {
    match flagged_assertion(e) {
        Some((call, receiver)) => match text_at(files, receiver.span) {
            Some(text) => Some((call.call_span, text)),
            None => None,
        },
        None => None,
    }
}

/// The finding that the rule has for a node, if it has one.
pub open spec fn finding_of(files: Seq<Seq<char>>, e: &Expr) -> Option<FindingView> {
    match flagged_text(files, e) {
        Some((call_span, text)) => Some(assert_ok_finding(call_span, text)),
        None => None,
    }
}

/// The sink's findings after the rule has looked at `e`.
pub open spec fn reported_after(
    before: Seq<FindingView>,
    files: Seq<Seq<char>>,
    e: &Expr,
) -> Seq<FindingView> {
    match finding_of(files, e) {
        Some(finding) => before.push(finding),
        None => before,
    }
}

impl AssertOk {
    pub fn new() -> (rule: AssertOk)
        ensures
            rule == (AssertOk {  }),
    {
        AssertOk {  }
    }

    /// The record under which the rule is registered with the host.
    pub fn descriptor() -> (d: RuleDescriptor)
        ensures
            d.id@ == crate::emit::rule_id(),
            d.severity_class == SeverityClass::Style,
            d.summary@
                == "`assert!(r.is_ok())` gives worse error message than directly calling \
                    `r.unwrap()`"@,
            d.what_it_does@ == "Checks for `assert!(r.is_ok())` calls."@,
            d.why_is_this_bad@
                == "An assertion failure cannot output a useful message of the error."@,
            d.known_problems@ == "The error type needs to implement `Debug`."@,
            d.example@ == "assert!(r.is_ok());"@,
    {
        RuleDescriptor {
            id: "assert_ok",
            severity_class: SeverityClass::Style,
            summary: "`assert!(r.is_ok())` gives worse error message than directly calling \
                      `r.unwrap()`",
            what_it_does: "Checks for `assert!(r.is_ok())` calls.",
            why_is_this_bad: "An assertion failure cannot output a useful message of the error.",
            known_problems: "The error type needs to implement `Debug`.",
            example: "assert!(r.is_ok());",
        }
    }

    /// Runs the stages up to the snippet: resolves the macro call, takes the
    /// assertion apart, matches the condition and reads the receiver's text.
    /// The first stage that fails ends the run.
    pub fn match_expr(&self, cx: &SourceMap, e: &Expr) -> (found: Option<(Span, String)>)
        ensures
            match found {
                Some((call_span, text)) => flagged_text(cx@, e) == Some((call_span, text@)),
                None => flagged_text(cx@, e) is None,
            },
    {
        let call = match resolve_assert_call(e) {
            Some(call) => call,
            None => return None,
        };
        let condition = match extract_assert_args(e, call.expansion_span) {
            Some((condition, PanicExpn::Empty)) => condition,
            _ => return None,
        };
        let receiver = match is_ok_receiver(condition) {
            Some(receiver) => receiver,
            None => return None,
        };
        match cx.snippet(&receiver.span) {
            Some(text) => Some((call.call_span, text)),
            None => None,
        }
    }

    /// The finding for a node, without a sink.
    pub fn lint_expr(&self, cx: &SourceMap, e: &Expr) -> (found: Option<Finding>)
        ensures
            match found {
                Some(finding) => finding_of(cx@, e) == Some(finding@),
                None => finding_of(cx@, e) is None,
            },
    {
        match self.match_expr(cx, e) {
            Some((call_span, text)) => Some(build_finding(call_span, text.as_str())),
            None => None,
        }
    }

    /// Looks at one node and hands what it finds to the sink: one finding
    /// behind those that the sink holds, or nothing.
    pub fn check_expr(&mut self, cx: &SourceMap, e: &Expr, sink: &mut Vec<Finding>)
        ensures
            *final(self) == *old(self),
            match finding_of(cx@, e) {
                Some(finding) => {
                    &&& final(sink)@.len() == old(sink)@.len() + 1
                    &&& final(sink)@.drop_last() == old(sink)@
                    &&& final(sink)@.last()@ == finding
                },
                None => final(sink)@ == old(sink)@,
            },
            reported(final(sink)@) == reported_after(reported(old(sink)@), cx@, e),
    {
        match self.match_expr(cx, e) {
            Some((call_span, text)) => {
                emit(sink, call_span, text.as_str());
                assert(reported(sink@) =~= reported(old(sink)@).push(sink@.last()@)) by {
                    assert(sink@.drop_last() == old(sink)@);
                }
            },
            None => {},
        }
    }
}

} // verus!
