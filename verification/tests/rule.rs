use assert_ok::finding::{Confidence, Finding, SeverityClass, Suggestion};
use assert_ok::ir::{Expr, ExprKind, MacroCall, MacroDef};
use assert_ok::rule::AssertOk;
use assert_ok::source::SourceMap;
use assert_ok::span::Span;

fn map_of(text: &str) -> SourceMap {
    let mut map = SourceMap::new();
    map.add_file(String::from("main.rs"), String::from(text));
    map
}

fn node(id: u64, kind: ExprKind, lo: usize, hi: usize) -> Expr {
    Expr { id, kind, span: Span::authored(0, lo, hi) }
}

fn path(lo: usize, hi: usize) -> Expr {
    node(3, ExprKind::Path, lo, hi)
}

fn method_call(method: &str, receiver: Expr, args: Vec<Expr>, hi: usize) -> Expr {
    let lo = receiver.span.lo;
    let kind = ExprKind::MethodCall {
        method: String::from(method),
        receiver: Box::new(receiver),
        args,
    };
    node(2, kind, lo, hi)
}

fn expansion_at(name: Option<&str>, call_span: Span, args: Vec<Expr>) -> Expr {
    let expansion_span = Span::synthesized(call_span.file, call_span.lo, call_span.hi);
    let def = MacroDef { id: 40, diagnostic_name: name.map(String::from) };
    let call = MacroCall { def, call_span, expansion_span };
    Expr { id: 1, kind: ExprKind::MacroExpansion { call, args }, span: expansion_span }
}

fn expansion(name: Option<&str>, lo: usize, hi: usize, args: Vec<Expr>) -> Expr {
    expansion_at(name, Span::authored(0, lo, hi), args)
}

/// `assert!(r.is_ok());` at the start of file 0.
fn assert_r_is_ok() -> Expr {
    let condition = method_call("is_ok", path(8, 9), vec![], 17);
    expansion(Some("assert_macro"), 0, 18, vec![condition])
}

fn finding_at(call_span: Span, receiver: &str) -> Finding {
    Finding {
        rule_id: String::from("assert_ok"),
        severity_class: SeverityClass::Style,
        primary_span: call_span,
        message: format!("`assert!({}.is_ok())` gives bad error message", receiver),
        suggestion: Suggestion {
            label: String::from("replace with"),
            replacement_text: format!("{}.unwrap()", receiver),
            confidence_level: Confidence::NeedsReview,
        },
        applicability_scope: call_span,
    }
}

fn lint(map: &SourceMap, e: &Expr) -> Option<Finding> {
    AssertOk::new().lint_expr(map, e)
}

#[test]
fn flags_assert_of_is_ok() {
    let map = map_of("assert!(r.is_ok());");
    let found = lint(&map, &assert_r_is_ok()).unwrap();
    assert_eq!(found.suggestion.replacement_text, "r.unwrap()");
    assert_eq!(found.message, "`assert!(r.is_ok())` gives bad error message");
    assert_eq!(found.primary_span, Span::authored(0, 0, 18));
    assert_eq!(found.applicability_scope, Span::authored(0, 0, 18));
    assert_eq!(found.suggestion.label, "replace with");
    assert_eq!(found.suggestion.confidence_level, Confidence::NeedsReview);
    assert_eq!(found.severity_class, SeverityClass::Style);
    assert_eq!(found.rule_id, "assert_ok");
}

#[test]
fn finding_covers_the_whole_call_not_the_condition() {
    let map = map_of("    assert!(r.is_ok());");
    let condition = method_call("is_ok", path(12, 13), vec![], 21);
    let e = expansion(Some("assert_macro"), 4, 22, vec![condition]);
    assert_eq!(lint(&map, &e), Some(finding_at(Span::authored(0, 4, 22), "r")));
}

#[test]
fn receiver_text_is_taken_verbatim() {
    let map = map_of("assert!(parse( input )?.check .is_ok());");
    let receiver = node(3, ExprKind::Other, 8, 29);
    let condition = method_call("is_ok", receiver, vec![], 38);
    let e = expansion(Some("assert_macro"), 0, 39, vec![condition]);
    let found = lint(&map, &e).unwrap();
    assert_eq!(found.suggestion.replacement_text, "parse( input )?.check.unwrap()");
    assert_eq!(found.message, "`assert!(parse( input )?.check.is_ok())` gives bad error message");
}

#[test]
fn receiver_text_may_hold_characters_of_several_bytes() {
    let map = map_of("assert!(r\u{e9}sultat.is_ok());");
    let condition = method_call("is_ok", path(8, 17), vec![], 25);
    let e = expansion(Some("assert_macro"), 0, 26, vec![condition]);
    let found = lint(&map, &e).unwrap();
    assert_eq!(found.suggestion.replacement_text, "r\u{e9}sultat.unwrap()");
}

#[test]
fn receiver_in_a_second_file() {
    let mut map = SourceMap::new();
    map.add_file(String::from("lib.rs"), String::from("fn f() {}"));
    let file = map.add_file(String::from("tests.rs"), String::from("assert!(out.is_ok());"));
    assert_eq!(file, 1);
    let receiver = Expr { id: 3, kind: ExprKind::Path, span: Span::authored(file, 8, 11) };
    let condition = Expr {
        id: 2,
        kind: ExprKind::MethodCall {
            method: String::from("is_ok"),
            receiver: Box::new(receiver),
            args: vec![],
        },
        span: Span::authored(file, 8, 19),
    };
    let e = expansion_at(Some("assert_macro"), Span::authored(file, 0, 20), vec![condition]);
    assert_eq!(lint(&map, &e), Some(finding_at(Span::authored(file, 0, 20), "out")));
}

#[test]
fn custom_message_is_not_flagged() {
    let map = map_of("assert!(r.is_ok(), \"custom message\");");
    let condition = method_call("is_ok", path(8, 9), vec![], 17);
    let message = node(4, ExprKind::Literal, 19, 35);
    let e = expansion(Some("assert_macro"), 0, 36, vec![condition, message]);
    assert_eq!(lint(&map, &e), None);
}

#[test]
fn is_err_is_not_flagged() {
    let map = map_of("assert!(r.is_err());");
    let condition = method_call("is_err", path(8, 9), vec![], 18);
    let e = expansion(Some("assert_macro"), 0, 19, vec![condition]);
    assert_eq!(lint(&map, &e), None);
}

#[test]
fn assert_eq_is_not_flagged() {
    let map = map_of("assert_eq!(r, Ok(()));");
    let left = path(11, 12);
    let unit = node(5, ExprKind::Other, 17, 19);
    let right = node(
        4,
        ExprKind::Call { callee: Box::new(path(14, 16)), args: vec![unit] },
        14,
        20,
    );
    let e = expansion(Some("assert_eq_macro"), 0, 21, vec![left, right]);
    assert_eq!(lint(&map, &e), None);
}

#[test]
fn assert_eq_of_one_is_ok_call_is_not_flagged() {
    let map = map_of("assert!(r.is_ok());");
    let condition = method_call("is_ok", path(8, 9), vec![], 17);
    let e = expansion(Some("assert_eq_macro"), 0, 18, vec![condition]);
    assert_eq!(lint(&map, &e), None);
}

#[test]
fn debug_assert_and_unnamed_macros_are_not_flagged() {
    let map = map_of("assert!(r.is_ok());");
    let names = [
        Some("debug_assert_macro"),
        Some("assert_ne_macro"),
        Some("Assert_macro"),
        Some(""),
        None,
    ];
    for name in names {
        let condition = method_call("is_ok", path(8, 9), vec![], 17);
        let e = expansion(name, 0, 18, vec![condition]);
        assert_eq!(lint(&map, &e), None);
    }
}

#[test]
fn synthesized_receiver_is_not_flagged() {
    let map = map_of("assert!(r.is_ok());");
    let receiver = Expr { id: 3, kind: ExprKind::Path, span: Span::synthesized(0, 8, 9) };
    let condition = method_call("is_ok", receiver, vec![], 17);
    let e = expansion(Some("assert_macro"), 0, 18, vec![condition]);
    assert_eq!(lint(&map, &e), None);
}

#[test]
fn receiver_without_text_is_not_flagged() {
    let map = map_of("assert!(r.is_ok());");
    for span in [Span::authored(1, 8, 9), Span::authored(0, 8, 40), Span::authored(0, 9, 8)] {
        let receiver = Expr { id: 3, kind: ExprKind::Path, span };
        let condition = method_call("is_ok", receiver, vec![], 17);
        let e = expansion(Some("assert_macro"), 0, 18, vec![condition]);
        assert_eq!(lint(&map, &e), None);
    }
    assert_eq!(lint(&SourceMap::new(), &assert_r_is_ok()), None);
}

#[test]
fn receiver_span_that_cuts_a_character_is_not_flagged() {
    let map = map_of("assert!(r\u{e9}.is_ok());");
    let condition = method_call("is_ok", path(8, 10), vec![], 19);
    let e = expansion(Some("assert_macro"), 0, 20, vec![condition]);
    assert_eq!(lint(&map, &e), None);
}

#[test]
fn assertion_inside_another_expansion_is_not_flagged() {
    let map = map_of("assert!(r.is_ok());");
    let condition = method_call("is_ok", path(8, 9), vec![], 17);
    let e = expansion_at(Some("assert_macro"), Span::synthesized(0, 0, 18), vec![condition]);
    assert_eq!(lint(&map, &e), None);
}

#[test]
fn nodes_that_are_no_expansion_are_not_flagged() {
    let map = map_of("assert!(r.is_ok());");
    assert_eq!(lint(&map, &method_call("is_ok", path(8, 9), vec![], 17)), None);
    assert_eq!(lint(&map, &path(8, 9)), None);
    let block = node(9, ExprKind::Block { body: vec![assert_r_is_ok()] }, 0, 19);
    assert_eq!(lint(&map, &block), None);
}

#[test]
fn assertion_without_arguments_is_not_flagged() {
    let map = map_of("assert!();");
    let e = expansion(Some("assert_macro"), 0, 9, vec![]);
    assert_eq!(lint(&map, &e), None);
}

#[test]
fn conditions_of_other_shapes_are_not_flagged() {
    let map = map_of("assert!(r.is_ok);  ");
    let field = ExprKind::Field { base: Box::new(path(8, 9)), name: String::from("is_ok") };
    let call = ExprKind::Call { callee: Box::new(path(8, 9)), args: vec![] };
    let block = ExprKind::Block { body: vec![] };
    for kind in [field, call, block, ExprKind::Literal, ExprKind::Path, ExprKind::Other] {
        let e = expansion(Some("assert_macro"), 0, 16, vec![node(2, kind, 8, 15)]);
        assert_eq!(lint(&map, &e), None);
    }
}

#[test]
fn is_ok_with_an_argument_is_not_flagged() {
    let map = map_of("assert!(r.is_ok(1));");
    let extra = node(4, ExprKind::Literal, 16, 17);
    let condition = method_call("is_ok", path(8, 9), vec![extra], 18);
    let e = expansion(Some("assert_macro"), 0, 19, vec![condition]);
    assert_eq!(lint(&map, &e), None);
}

#[test]
fn any_type_with_a_method_of_that_name_is_flagged() {
    let map = map_of("assert!(door.is_ok());");
    let condition = method_call("is_ok", node(3, ExprKind::Literal, 8, 12), vec![], 20);
    let e = expansion(Some("assert_macro"), 0, 21, vec![condition]);
    assert_eq!(lint(&map, &e), Some(finding_at(Span::authored(0, 0, 21), "door")));
}

#[test]
fn nodes_that_read_the_same_have_the_same_finding() {
    let map = map_of("assert!(r.is_ok());");
    let first = lint(&map, &assert_r_is_ok());
    let second = lint(&map, &assert_r_is_ok());
    assert!(first.is_some());
    assert_eq!(first, second);
}

#[test]
fn check_expr_appends_one_finding() {
    let map = map_of("assert!(r.is_ok());");
    let mut rule = AssertOk::new();
    let mut sink = vec![finding_at(Span::authored(0, 30, 40), "earlier")];
    rule.check_expr(&map, &assert_r_is_ok(), &mut sink);
    let expected = vec![
        finding_at(Span::authored(0, 30, 40), "earlier"),
        finding_at(Span::authored(0, 0, 18), "r"),
    ];
    assert_eq!(sink, expected);
}

#[test]
fn check_expr_leaves_the_sink_alone_without_a_match() {
    let map = map_of("assert!(r.is_err());");
    let condition = method_call("is_err", path(8, 9), vec![], 18);
    let e = expansion(Some("assert_macro"), 0, 19, vec![condition]);
    let mut rule = AssertOk::new();
    let mut sink = vec![finding_at(Span::authored(0, 30, 40), "earlier")];
    rule.check_expr(&map, &e, &mut sink);
    assert_eq!(sink, vec![finding_at(Span::authored(0, 30, 40), "earlier")]);
}

#[test]
fn looking_twice_gives_the_same_finding_twice() {
    let map = map_of("assert!(r.is_ok());");
    let e = assert_r_is_ok();
    let mut rule = AssertOk::new();
    let first = rule.lint_expr(&map, &e);
    let second = rule.lint_expr(&map, &e);
    assert!(first.is_some());
    assert_eq!(first, second);
    let mut sink = Vec::new();
    rule.check_expr(&map, &e, &mut sink);
    rule.check_expr(&map, &e, &mut sink);
    assert_eq!(sink.len(), 2);
    assert_eq!(sink[0], sink[1]);
    assert_eq!(sink[0], finding_at(Span::authored(0, 0, 18), "r"));
}

#[test]
fn looking_twice_at_a_node_without_a_finding_gives_nothing_twice() {
    let map = map_of("assert!(r.is_ok());");
    let e = path(8, 9);
    let mut rule = AssertOk::new();
    let mut sink = Vec::new();
    rule.check_expr(&map, &e, &mut sink);
    rule.check_expr(&map, &e, &mut sink);
    assert!(sink.is_empty());
}

#[test]
fn order_of_nodes_changes_only_the_order_of_findings() {
    let map = map_of("assert!(a.is_ok()); assert!(b.is_ok()); assert!(c.is_err());");
    let first_condition = method_call("is_ok", path(8, 9), vec![], 17);
    let first = expansion(Some("assert_macro"), 0, 18, vec![first_condition]);
    let second_condition = method_call("is_ok", path(28, 29), vec![], 37);
    let second = expansion(Some("assert_macro"), 20, 38, vec![second_condition]);
    let third_condition = method_call("is_err", path(48, 49), vec![], 58);
    let third = expansion(Some("assert_macro"), 40, 59, vec![third_condition]);

    let mut rule = AssertOk::new();
    let mut forward = Vec::new();
    rule.check_expr(&map, &first, &mut forward);
    rule.check_expr(&map, &second, &mut forward);
    rule.check_expr(&map, &third, &mut forward);
    let mut backward = Vec::new();
    rule.check_expr(&map, &third, &mut backward);
    rule.check_expr(&map, &second, &mut backward);
    rule.check_expr(&map, &first, &mut backward);

    let expected = vec![
        finding_at(Span::authored(0, 0, 18), "a"),
        finding_at(Span::authored(0, 20, 38), "b"),
    ];
    assert_eq!(forward, expected);
    backward.reverse();
    assert_eq!(forward, backward);
}

#[test]
fn match_expr_gives_the_call_span_and_the_receiver_text() {
    let map = map_of("assert!(r.is_ok());");
    let rule = AssertOk::new();
    let found = rule.match_expr(&map, &assert_r_is_ok());
    assert_eq!(found, Some((Span::authored(0, 0, 18), String::from("r"))));
    assert_eq!(rule.match_expr(&map, &path(8, 9)), None);
}

#[test]
fn descriptor_names_the_rule() {
    let d = AssertOk::descriptor();
    assert_eq!(d.id, "assert_ok");
    assert_eq!(d.severity_class, SeverityClass::Style);
    assert_eq!(
        d.summary,
        "`assert!(r.is_ok())` gives worse error message than directly calling `r.unwrap()`"
    );
    assert_eq!(d.what_it_does, "Checks for `assert!(r.is_ok())` calls.");
    assert_eq!(
        d.why_is_this_bad,
        "An assertion failure cannot output a useful message of the error."
    );
    assert_eq!(d.known_problems, "The error type needs to implement `Debug`.");
    assert_eq!(d.example, "assert!(r.is_ok());");
}
