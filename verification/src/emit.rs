//! Building the rule's finding and handing it to the diagnostic sink.

use crate::finding::{Confidence, Finding, FindingView, SeverityClass, Suggestion, SuggestionView};
use crate::span::Span;
use vstd::prelude::*;
use vstd::string::*;

verus! {

/// The identifier under which the rule is registered.
pub open spec fn rule_id() -> Seq<char> {
    "assert_ok"@
}

/// The message for an assertion on `receiver`.
pub open spec fn message_for(receiver: Seq<char>) -> Seq<char> {
    "`assert!("@ + receiver + ".is_ok())` gives bad error message"@
}

/// The words that introduce the replacement.
pub open spec fn suggestion_label() -> Seq<char> {
    "replace with"@
}

/// The text that takes the place of the assertion on `receiver`.
pub open spec fn replacement_for(receiver: Seq<char>) -> Seq<char> {
    receiver + ".unwrap()"@
}

/// The finding for the assertion written at `call_span` on `receiver`. It
/// points at the whole call, and the replacement stands in for the whole
/// call. Nothing has checked the receiver's type, so the suggestion is left
/// to a person to judge.
pub open spec fn assert_ok_finding(call_span: Span, receiver: Seq<char>) -> FindingView {
    FindingView {
        rule_id: rule_id(),
        severity_class: SeverityClass::Style,
        primary_span: call_span,
        message: message_for(receiver),
        suggestion: SuggestionView {
            label: suggestion_label(),
            replacement_text: replacement_for(receiver),
            confidence_level: Confidence::NeedsReview,
        },
        applicability_scope: call_span,
    }
}

/// Builds the finding for the assertion written at `call_span`, whose
/// receiver reads `receiver` in the source.
pub fn build_finding(call_span: Span, receiver: &str) -> (finding: Finding)
    ensures
        finding@ == assert_ok_finding(call_span, receiver@),
{
    let mut message = String::from_str("`assert!(");
    message.append(receiver);
    message.append(".is_ok())` gives bad error message");
    let mut replacement_text = String::from_str(receiver);
    replacement_text.append(".unwrap()");
    Finding {
        rule_id: String::from_str("assert_ok"),
        severity_class: SeverityClass::Style,
        primary_span: call_span,
        message,
        suggestion: Suggestion {
            label: String::from_str("replace with"),
            replacement_text,
            confidence_level: Confidence::NeedsReview,
        },
        applicability_scope: call_span,
    }
}

/// Hands the finding for the assertion at `call_span` to the sink. What the
/// sink held stays as it was, in front of the new finding.
pub fn emit(sink: &mut Vec<Finding>, call_span: Span, receiver: &str)
    ensures
        final(sink)@.len() == old(sink)@.len() + 1,
        final(sink)@.drop_last() == old(sink)@,
        final(sink)@.last()@ == assert_ok_finding(call_span, receiver@),
{
    sink.push(build_finding(call_span, receiver));
}

} // verus!
