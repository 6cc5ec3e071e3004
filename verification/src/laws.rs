//! What holds of the rule on every node.

use crate::condition::{is_ok_name, is_ok_receiver};
use crate::emit::assert_ok_finding;
use crate::finding::{Confidence, FindingView};
use crate::ir::{lemma_trees_of, tree_of, trees_of, Expr, ExprKind};
use crate::macros::{
    assert_macro_name,
    is_plain_assert,
    extract_assert_args,
    resolve_assert_call,
    PanicExpn,
};
use crate::rule::{finding_of, flagged_text, reported_after};
use crate::source::{lemma_boundary_in_prefix, slice_chars, text_at};
use crate::span::Span;
use vstd::prelude::*;
use vstd::utf8::*;

verus! {

/// `e` is the outermost node of a plain boolean assertion that the user
/// wrote at `call_span`, with one argument and no message; the argument is a
/// call of `is_ok` with no further argument, on a receiver at
/// `receiver_span`.
pub open spec fn is_assertion_of_is_ok(e: &Expr, call_span: Span, receiver_span: Span) -> bool {
    &&& e.kind matches ExprKind::MacroExpansion { call, args }
    &&& call.call_span == call_span
    &&& call_span.is_authored()
    &&& call.def.diagnostic_name matches Some(name)
    &&& name@ == assert_macro_name()
    &&& args@.len() == 1
    &&& args@[0].kind matches ExprKind::MethodCall { method, receiver, args: further }
    &&& method@ == is_ok_name()
    &&& further@.len() == 0
    &&& receiver.span == receiver_span
}

/// The findings that looking at `e` adds to a sink: one or none.
pub open spec fn findings_of(files: Seq<Seq<char>>, e: &Expr) -> Seq<FindingView> {
    match finding_of(files, e) {
        Some(finding) => seq![finding],
        None => seq![],
    }
}

/// The stages run in a row, and each runs only where the one before it
/// succeeded: the call is resolved, the assertion taken apart, the condition
/// matched, the receiver's text read.
pub proof fn law_stages_run_in_a_row(files: Seq<Seq<char>>, e: &Expr)
    ensures
        flagged_text(files, e) == match resolve_assert_call(e) {
            Some(call) => match extract_assert_args(e, call.expansion_span) {
                Some((condition, PanicExpn::Empty)) => match is_ok_receiver(condition) {
                    Some(receiver) => match text_at(files, receiver.span) {
                        Some(text) => Some((call.call_span, text)),
                        None => None,
                    },
                    None => None,
                },
                _ => None,
            },
            None => None,
        },
{
}

/// `assert!(r.is_ok())` is flagged whatever `r` is, as long as `r` has source
/// text: the finding points at the whole call, and it proposes the text of
/// `r` as it stands in the source, followed by `.unwrap()`, for a person to
/// judge.
pub proof fn law_assertion_of_is_ok_is_flagged(
    files: Seq<Seq<char>>,
    e: &Expr,
    call_span: Span,
    receiver_span: Span,
    receiver_text: Seq<char>,
)
    requires
        is_assertion_of_is_ok(e, call_span, receiver_span),
        text_at(files, receiver_span) == Some(receiver_text),
    ensures
        finding_of(files, e) == Some(assert_ok_finding(call_span, receiver_text)),
        finding_of(files, e).unwrap().primary_span == call_span,
        finding_of(files, e).unwrap().applicability_scope == call_span,
        finding_of(files, e).unwrap().suggestion.replacement_text == receiver_text + ".unwrap()"@,
        finding_of(files, e).unwrap().suggestion.confidence_level == Confidence::NeedsReview,
        finding_of(files, e).unwrap().message == "`assert!("@ + receiver_text
            + ".is_ok())` gives bad error message"@,
{
}

/// A finding is only ever made of a node that has passed every stage.
pub proof fn law_finding_needs_every_stage(files: Seq<Seq<char>>, e: &Expr)
    requires
        finding_of(files, e) is Some,
    ensures
        exists|call_span: Span, receiver_span: Span|
            #![auto]
            is_assertion_of_is_ok(e, call_span, receiver_span) && text_at(files, receiver_span)
                is Some,
{
    let call_span = e.kind->MacroExpansion_call.call_span;
    let receiver_span = e.kind->MacroExpansion_args@[0].kind->MethodCall_receiver.span;
    assert(is_assertion_of_is_ok(e, call_span, receiver_span));
}

/// An assertion with a message of its own, as `assert!(r.is_ok(), "why")`,
/// is never flagged: the fix would lose the message.
pub proof fn law_custom_message_is_not_flagged(files: Seq<Seq<char>>, e: &Expr)
    requires
        e.kind matches ExprKind::MacroExpansion { call, args } && args@.len() >= 2,
    ensures
        finding_of(files, e) is None,
{
}

/// An assertion on a call of another method is never flagged.
pub proof fn law_other_method_is_not_flagged(files: Seq<Seq<char>>, e: &Expr)
    requires
        ({
            &&& e.kind matches ExprKind::MacroExpansion { call, args }
            &&& args@.len() >= 1
            &&& (args@[0].kind matches ExprKind::MethodCall { method, receiver, args: further }
                ==> method@ != is_ok_name())
        }),
    ensures
        finding_of(files, e) is None,
{
}

/// `assert!(r.is_err())` is never flagged.
pub proof fn law_is_err_is_not_flagged(files: Seq<Seq<char>>, e: &Expr)
    requires
        ({
            &&& e.kind matches ExprKind::MacroExpansion { call, args }
            &&& args@.len() >= 1
            &&& args@[0].kind matches ExprKind::MethodCall { method, receiver, args: further }
            &&& method@ == "is_err"@
        }),
    ensures
        finding_of(files, e) is None,
{
    reveal_strlit("is_err");
    reveal_strlit("is_ok");
    assert("is_err"@.len() != "is_ok"@.len());
}

/// A call of `is_ok` that is given an argument besides its receiver is never
/// flagged.
pub proof fn law_further_arguments_are_not_flagged(files: Seq<Seq<char>>, e: &Expr)
    requires
        ({
            &&& e.kind matches ExprKind::MacroExpansion { call, args }
            &&& args@.len() >= 1
            &&& args@[0].kind matches ExprKind::MethodCall { method, receiver, args: further }
            &&& further@.len() > 0
        }),
    ensures
        finding_of(files, e) is None,
{
}

/// The expansion of any macro but the plain boolean assertion is never
/// flagged.
pub proof fn law_other_macro_is_not_flagged(files: Seq<Seq<char>>, e: &Expr)
    requires
        e.kind matches ExprKind::MacroExpansion { call, args } && !is_plain_assert(&call.def),
    ensures
        finding_of(files, e) is None,
{
}

/// `assert_eq!(r, Ok(()))` is never flagged: the host knows that macro under
/// another name.
pub proof fn law_assert_eq_is_not_flagged(files: Seq<Seq<char>>, e: &Expr)
    requires
        ({
            &&& e.kind matches ExprKind::MacroExpansion { call, args }
            &&& call.def.diagnostic_name matches Some(name)
            &&& name@ == "assert_eq_macro"@
        }),
    ensures
        finding_of(files, e) is None,
{
    reveal_strlit("assert_eq_macro");
    reveal_strlit("assert_macro");
    assert("assert_eq_macro"@.len() != "assert_macro"@.len());
}

/// A node that is no macro expansion, or the expansion of a call that stands
/// inside another expansion, is never flagged.
pub proof fn law_inner_node_is_not_flagged(files: Seq<Seq<char>>, e: &Expr)
    requires
        e.kind matches ExprKind::MacroExpansion { call, args } ==> !call.call_span.is_authored(),
    ensures
        finding_of(files, e) is None,
{
}

/// Where the receiver has no source text, nothing is flagged: no text is
/// made up for it.
pub proof fn law_missing_snippet_is_not_flagged(
    files: Seq<Seq<char>>,
    e: &Expr,
    call_span: Span,
    receiver_span: Span,
)
    requires
        is_assertion_of_is_ok(e, call_span, receiver_span),
        text_at(files, receiver_span) is None,
    ensures
        finding_of(files, e) is None,
{
}

/// A span that a macro synthesized has no source text.
pub proof fn law_synthesized_span_has_no_text(files: Seq<Seq<char>>, span: Span)
    requires
        !span.is_authored(),
    ensures
        text_at(files, span) is None,
{
}

/// A snippet is the text exactly as written: its encoding is the bytes of the
/// file in the range of the span, none added and none left out.
pub proof fn law_slice_keeps_the_bytes(text: Seq<char>, lo: int, hi: int)
    requires
        slice_chars(text, lo, hi) is Some,
    ensures
        encode_utf8(slice_chars(text, lo, hi).unwrap()) == encode_utf8(text).subrange(lo, hi),
{
    let bytes = encode_utf8(text);
    let prefix = bytes.subrange(0, hi);
    encode_utf8_valid_utf8(text);
    lemma_boundary_in_prefix(bytes, lo, hi);
    valid_utf8_split(prefix, lo);
    assert(prefix.subrange(lo, prefix.len() as int) =~= bytes.subrange(lo, hi));
    decode_utf8_encode_utf8(bytes.subrange(lo, hi));
}

/// In a text of ASCII characters every byte is a character, so the text
/// between two offsets in bounds is the characters between them.
pub proof fn law_slice_of_ascii(text: Seq<char>, lo: int, hi: int)
    requires
        is_ascii_chars(text),
        0 <= lo <= hi <= text.len(),
    ensures
        slice_chars(text, lo, hi) == Some(text.subrange(lo, hi)),
{
    let bytes = encode_utf8(text);
    let part = text.subrange(lo, hi);
    is_ascii_chars_encode_utf8(text);
    is_ascii_chars_encode_utf8(part);
    encode_utf8_valid_utf8(text);
    is_char_boundary_start_end_of_seq(bytes);
    if lo < bytes.len() {
        is_char_boundary_iff_not_is_continuation_byte(bytes, lo);
        assert(bytes[lo] == text[lo] as u8);
    }
    if hi < bytes.len() {
        is_char_boundary_iff_not_is_continuation_byte(bytes, hi);
        assert(bytes[hi] == text[hi] as u8);
    }
    assert(encode_utf8(part) =~= bytes.subrange(lo, hi)) by {
        assert forall|i: int| 0 <= i < part.len() implies encode_utf8(part)[i] == bytes.subrange(
            lo,
            hi,
        )[i] by {
            assert(part[i] == text[lo + i]);
        }
    }
    encode_utf8_decode_utf8(part);
}

/// The rule reads a node only as the tree that stands for it: two nodes that
/// stand for the same tree have the same finding.
pub proof fn law_finding_reads_the_tree(files: Seq<Seq<char>>, a: &Expr, b: &Expr)
    requires
        a@ == b@,
    ensures
        finding_of(files, a) == finding_of(files, b),
{
    match (a.kind, b.kind) {
        (
            ExprKind::MacroExpansion { call: call_a, args: args_a },
            ExprKind::MacroExpansion { call: call_b, args: args_b },
        ) => {
            lemma_trees_of(args_a);
            lemma_trees_of(args_b);
            assert(call_a@ == call_b@);
            assert(trees_of(args_a) == trees_of(args_b));
            assert(args_a@.len() == args_b@.len());
            if args_a@.len() == 1 {
                assert(trees_of(args_a)[0] == tree_of(args_a@[0]));
                assert(trees_of(args_b)[0] == tree_of(args_b@[0]));
                match (args_a@[0].kind, args_b@[0].kind) {
                    (
                        ExprKind::MethodCall { method: m_a, receiver: r_a, args: f_a },
                        ExprKind::MethodCall { method: m_b, receiver: r_b, args: f_b },
                    ) => {
                        lemma_trees_of(f_a);
                        lemma_trees_of(f_b);
                        assert(m_a@ == m_b@);
                        assert(trees_of(f_a) == trees_of(f_b));
                        assert(f_a@.len() == f_b@.len());
                        assert(tree_of(*r_a) == tree_of(*r_b));
                        assert(r_a.span == r_b.span);
                    },
                    _ => {},
                }
            }
        },
        _ => {},
    }
}

/// Looking at a node twice gives the same both times: nothing and nothing,
/// or the same finding twice. The rule keeps nothing from the first look.
pub proof fn law_idempotent(before: Seq<FindingView>, files: Seq<Seq<char>>, e: &Expr)
    ensures
        ({
            let once = reported_after(before, files, e);
            let twice = reported_after(once, files, e);
            match finding_of(files, e) {
                Some(finding) => once == before.push(finding) && twice == once.push(finding),
                None => once == before && twice == before,
            }
        }),
{
}

/// The order in which two nodes are looked at changes nothing but the order
/// of their findings in the sink: each node has the finding it has alone.
pub proof fn law_order_independent(
    before: Seq<FindingView>,
    files: Seq<Seq<char>>,
    a: &Expr,
    b: &Expr,
)
    ensures
        ({
            let a_then_b = reported_after(reported_after(before, files, a), files, b);
            let b_then_a = reported_after(reported_after(before, files, b), files, a);
            &&& a_then_b == before + findings_of(files, a) + findings_of(files, b)
            &&& b_then_a == before + findings_of(files, b) + findings_of(files, a)
            &&& a_then_b.to_multiset() == b_then_a.to_multiset()
        }),
{
    let a_then_b = reported_after(reported_after(before, files, a), files, b);
    let b_then_a = reported_after(reported_after(before, files, b), files, a);
    assert(a_then_b =~= before + findings_of(files, a) + findings_of(files, b));
    assert(b_then_a =~= before + findings_of(files, b) + findings_of(files, a));
    match (finding_of(files, a), finding_of(files, b)) {
        (Some(found_a), Some(found_b)) => {
            before.to_multiset_ensures();
            before.push(found_a).to_multiset_ensures();
            before.push(found_b).to_multiset_ensures();
            assert(a_then_b.to_multiset() =~= b_then_a.to_multiset());
        },
        _ => {},
    }
}

} // verus!
