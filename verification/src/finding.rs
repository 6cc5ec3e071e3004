//! What the rule reports: a located message with a proposed replacement.

use crate::span::Span;
use vstd::prelude::*;

verus! {

/// The class under which the host files a rule.
#[derive(Clone, Copy, Debug, PartialEq, Eq, Structural)]
pub enum SeverityClass {
    Correctness,
    Suspicious,
    Style,
    Complexity,
    Perf,
    Pedantic,
}

/// How safe it is to apply a suggestion without a person looking at it.
#[derive(Clone, Copy, Debug, PartialEq, Eq, Structural)]
pub enum Confidence {
    /// The replacement is what the user meant.
    Certain,
    /// The replacement is valid code and probably what the user meant.
    LikelyCorrect,
    /// Nothing was checked but the text: a person has to judge the
    /// replacement. No rule can claim less of a suggestion that it makes.
    NeedsReview,
    /// The replacement is not complete and must never be applied as it is.
    DoNotAutoApply,
}

/// A textual fix.
#[derive(Debug, PartialEq, Eq)]
pub struct Suggestion {
    /// The words that introduce the replacement.
    pub label: String,
    pub replacement_text: String,
    pub confidence_level: Confidence,
}

/// One report of a rule.
#[derive(Debug, PartialEq, Eq)]
pub struct Finding {
    pub rule_id: String,
    pub severity_class: SeverityClass,
    /// The range that the report points at.
    pub primary_span: Span,
    pub message: String,
    pub suggestion: Suggestion,
    /// The range that the replacement text stands in for.
    pub applicability_scope: Span,
}

/// A suggestion with its texts as character sequences.
pub struct SuggestionView {
    pub label: Seq<char>,
    pub replacement_text: Seq<char>,
    pub confidence_level: Confidence,
}

/// A finding with its texts as character sequences.
pub struct FindingView {
    pub rule_id: Seq<char>,
    pub severity_class: SeverityClass,
    pub primary_span: Span,
    pub message: Seq<char>,
    pub suggestion: SuggestionView,
    pub applicability_scope: Span,
}

impl View for Suggestion {
    type V = SuggestionView;

    open spec fn view(&self) -> SuggestionView {
        SuggestionView {
            label: self.label@,
            replacement_text: self.replacement_text@,
            confidence_level: self.confidence_level,
        }
    }
}

impl View for Finding {
    type V = FindingView;

    open spec fn view(&self) -> FindingView {
        FindingView {
            rule_id: self.rule_id@,
            severity_class: self.severity_class,
            primary_span: self.primary_span,
            message: self.message@,
            suggestion: self.suggestion@,
            applicability_scope: self.applicability_scope,
        }
    }
}

/// The findings of a sink, in the order in which they were handed over.
pub open spec fn reported(sink: Seq<Finding>) -> Seq<FindingView> {
    Seq::new(sink.len(), |i: int| sink[i]@)
}

} // verus!
