use proc_macro2::{Delimiter, Group, TokenStream, TokenTree};
use proc_macro_examples::examples::{answer, invoke1, invoke2, invoke3, invoke4, my_test};
use proc_macro_examples::macros::{
    derive_helper_attr, expand_flaky_fn, flaky_head_source, flaky_loop_source, flaky_test,
    flaky_test_diagnostic, make_answer, show_streams, stream_report, try_make_answer,
    ExpandError,
};
use std::str::FromStr;

fn tokens(src: &str) -> TokenStream {
    TokenStream::from_str(src).unwrap()
}

#[test]
fn it_works() {
    assert_eq!(2 + 2, 4);
}

#[test]
fn answer_is_42() {
    assert_eq!(answer(), 42);
}

#[test]
fn make_answer_generates_the_answer_function() {
    let out = make_answer(TokenStream::new());
    assert_eq!(out.to_string(), "fn answer () -> u32 { 42 }");
    assert_eq!(out.to_string(), tokens("fn answer() -> u32 { 42 }").to_string());
}

#[test]
fn make_answer_ignores_its_input() {
    let out = make_answer(tokens("anything at all"));
    assert_eq!(out.to_string(), "fn answer () -> u32 { 42 }");
}

#[test]
fn try_make_answer_lexes() {
    let out = try_make_answer(TokenStream::new());
    assert_eq!(out.map(|t| t.to_string()), Some("fn answer () -> u32 { 42 }".to_string()));
}

#[test]
fn derive_helper_attr_generates_nothing() {
    let out = derive_helper_attr(tokens("struct Struct { #[helper] field: () }"));
    assert!(out.is_empty());
    assert_eq!(out.to_string(), "");
}

#[test]
fn show_streams_returns_the_item_unchanged() {
    let item = tokens("fn invoke2() {}");
    let out = show_streams(tokens("bar"), item.clone());
    assert_eq!(out.to_string(), item.to_string());
}

#[test]
fn stream_report_without_attribute_arguments() {
    let (attr, item) = stream_report(&TokenStream::new(), &tokens("fn invoke1() {}"));
    assert_eq!(attr, "attr: \"\"");
    assert_eq!(item, "item: \"fn invoke1 () { }\"");
}

#[test]
fn stream_report_with_one_argument() {
    let (attr, item) = stream_report(&tokens("bar"), &tokens("fn invoke2() {}"));
    assert_eq!(attr, "attr: \"bar\"");
    assert_eq!(item, "item: \"fn invoke2 () { }\"");
}

#[test]
fn stream_report_with_several_tokens() {
    let (attr, _) = stream_report(&tokens("multiple => tokens"), &tokens("fn invoke3() {}"));
    assert_eq!(attr, "attr: \"multiple => tokens\"");
}

#[test]
fn stream_report_with_delimiters() {
    let (attr, item) = stream_report(&tokens("delimiters"), &tokens("fn invoke4() {}"));
    assert_eq!(attr, "attr: \"delimiters\"");
    assert_eq!(item, "item: \"fn invoke4 () { }\"");
}

#[test]
fn flaky_sources_are_exact() {
    assert_eq!(flaky_head_source("t"), "#[test] fn t()");
    assert_eq!(
        flaky_loop_source("t"),
        "for i in 0..3 { println!(\"flaky_test retry {}\", i); \
         let r = std :: panic :: catch_unwind(|| { t(); }); if r.is_ok() { return; } \
         if i == 2 { std :: panic :: resume_unwind(r.unwrap_err()); } }"
    );
}

fn expected_expansion(name: &str, item: &str) -> String {
    let src = format!("{} {{ {} {} }}", flaky_head_source(name), item, flaky_loop_source(name));
    tokens(&src).to_string()
}

#[test]
fn expand_flaky_fn_splices_the_function() {
    let out = expand_flaky_fn("t", tokens("fn t() {}")).unwrap();
    assert_eq!(out.to_string(), expected_expansion("t", "fn t() {}"));
    let trees: Vec<TokenTree> = out.into_iter().collect();
    assert_eq!(trees.len(), 6);
    match &trees[5] {
        TokenTree::Group(g) => assert_eq!(g.delimiter(), Delimiter::Brace),
        _ => panic!("the expansion does not end with its body"),
    }
}

#[test]
fn expand_flaky_fn_reports_unlexable_source() {
    let out = expand_flaky_fn("t\"", tokens("fn t() {}"));
    assert_eq!(out.err(), Some(ExpandError::Unlexable));
}

#[test]
fn flaky_test_wraps_the_function() {
    let out = flaky_test(TokenStream::new(), tokens("fn my_test() { assert_eq!(1, 1); }")).unwrap();
    assert_eq!(
        out.to_string(),
        expected_expansion("my_test", "fn my_test() { assert_eq!(1, 1); }")
    );
    assert!(out.to_string().starts_with("# [test] fn my_test () { fn my_test () {"));
}

fn has_invisible_group(ts: TokenStream) -> bool {
    ts.into_iter().any(|tree| match tree {
        TokenTree::Group(g) => g.delimiter() == Delimiter::None || has_invisible_group(g.stream()),
        _ => false,
    })
}

#[test]
fn flaky_test_keeps_invisible_groups() {
    let grouped = TokenTree::Group(Group::new(Delimiter::None, tokens("1 + 1")));
    let mut body = TokenStream::new();
    body.extend(tokens("let x ="));
    body.extend(std::iter::once(grouped));
    body.extend(tokens("* 2;"));
    let mut input = tokens("fn t()");
    input.extend(std::iter::once(TokenTree::Group(Group::new(Delimiter::Brace, body))));
    let out = flaky_test(TokenStream::new(), input).unwrap();
    assert!(has_invisible_group(out));
}

#[test]
fn flaky_test_reports_input_that_is_no_function() {
    let out = flaky_test(TokenStream::new(), tokens("struct S;")).unwrap();
    assert!(out.to_string().contains("compile_error"));
}

#[test]
fn example_functions_run() {
    invoke1();
    invoke2();
    invoke3();
    invoke4();
    my_test();
}

#[test]
fn flaky_test_parse_error_is_a_compile_error_invocation() {
    let out = flaky_test(TokenStream::new(), tokens("struct S;")).unwrap();
    assert!(out.to_string().starts_with(":: core :: compile_error ! {"));
    assert_eq!(out.into_iter().count() % 8, 0);
}

#[test]
fn flaky_test_ignores_the_attribute() {
    let input = "fn my_test() { assert_eq!(1, 1); }";
    let a = flaky_test(TokenStream::new(), tokens(input)).unwrap();
    let b = flaky_test(tokens("retries = 5"), tokens(input)).unwrap();
    assert_eq!(a.to_string(), b.to_string());
}

#[test]
fn flaky_test_names_the_test_after_the_function() {
    let out = flaky_test(TokenStream::new(), tokens("pub fn other() {}")).unwrap();
    assert!(out.to_string().starts_with("# [test] fn other () { pub fn other () { }"));
    assert!(out.to_string().contains("{ other () ; }"));
}

#[test]
fn make_answer_ignores_different_inputs() {
    let a = make_answer(tokens("x"));
    let b = make_answer(tokens("fn y() {}"));
    assert_eq!(a.to_string(), b.to_string());
}

#[test]
fn flaky_test_diagnostic_names_the_function() {
    let line = flaky_test_diagnostic(tokens("fn my_test() { assert_eq!(1, 1); }"));
    assert_eq!(line, Some("name: Ident(\n    my_test,\n)".to_string()));
}

#[test]
fn flaky_test_diagnostic_is_silent_on_parse_errors() {
    assert_eq!(flaky_test_diagnostic(tokens("struct S;")), None);
}

#[test]
fn flaky_test_parse_error_is_exactly_one_report_per_message() {
    let out = flaky_test(TokenStream::new(), tokens("fn")).unwrap();
    let trees: Vec<_> = out.into_iter().collect();
    assert_eq!(trees.len(), 8);
    assert_eq!(trees[2].to_string(), "core");
    assert_eq!(trees[5].to_string(), "compile_error");
}
