//! The four macros: `make_answer` (function-like), `show_streams` and
//! `flaky_test` (attributes) and `derive_helper_attr` (derive), as functions
//! from token streams to token streams.

use crate::tokens::{
    brace_group, concat_streams, declares_fn, empty_stream, ident_debug, lex, lexed_tokens,
    parse_fn, parse_outcome, reports_compile_error, stream_to_string, stream_tokens,
    tokens_text, Delim, Tree,
};
use proc_macro2::TokenStream;
use vstd::prelude::*;

verus! {

/// The source of the function that `make_answer` generates.
pub open spec fn answer_source() -> Seq<char> {
    "fn answer() -> u32 { 42 }"@
}

fn answer_text() -> (s: &'static str)
    ensures
        s@ == answer_source(),
{
    "fn answer() -> u32 { 42 }"
}

/// Generates the function `fn answer() -> u32 { 42 }`; its input is ignored.
/// The answer source always lexes; the requirement says so for Verus, which
/// learns it only from a call of the lexer (see `try_make_answer`).
pub fn make_answer(item: TokenStream) -> (out: TokenStream)
    requires
        lexed_tokens(answer_source()) is Some,
    ensures
        lexed_tokens(answer_source()) == Some(stream_tokens(out)),
{
    match lex(answer_text()) {
        Ok(ts) => ts,
        Err(_) => {
            proof {
                assert(false);
            }
            empty_stream()
        },
    }
}

/// `make_answer` ignores its input: any two of its outputs (under its
/// requirement that the answer source lexes) hold the same token trees.
pub proof fn lemma_make_answer_ignores_input(out_a: TokenStream, out_b: TokenStream)
    requires
        lexed_tokens(answer_source()) == Some(stream_tokens(out_a)),
        lexed_tokens(answer_source()) == Some(stream_tokens(out_b)),
    ensures
        stream_tokens(out_a) == stream_tokens(out_b),
{
}

/// `make_answer` after checking that the answer source lexes: `None` exactly
/// when the lexer refuses it.
pub fn try_make_answer(item: TokenStream) -> (out: Option<TokenStream>)
    ensures
        out is None <==> lexed_tokens(answer_source()) is None,
        out matches Some(ts) ==> lexed_tokens(answer_source()) == Some(stream_tokens(ts)),
{
    match lex(answer_text()) {
        Ok(_) => Some(make_answer(item)),
        Err(_) => None,
    }
}

/// The helper-attribute derive: it generates nothing.
pub fn derive_helper_attr(item: TokenStream) -> (out: TokenStream)
    ensures
        stream_tokens(out) == Seq::<Tree>::empty(),
{
    empty_stream()
}

/// The line that reports one input of `show_streams`: `label: "text"`.
pub open spec fn report_line(label: Seq<char>, text: Seq<char>) -> Seq<char> {
    label + ": \""@ + text + "\""@
}

/// The attribute that shows its inputs: the item comes back unchanged.
/// (Reporting the inputs is `stream_report`'s part.)
pub fn show_streams(attr: TokenStream, item: TokenStream) -> (out: TokenStream)
    ensures
        out == item,
{
    item
}

/// The two lines that `show_streams` reports: the attribute's tokens, then
/// the item's, each as the text it prints as.
pub fn stream_report(attr: &TokenStream, item: &TokenStream) -> (lines: (String, String))
    ensures
        lines.0@ == report_line("attr"@, tokens_text(stream_tokens(*attr))),
        lines.1@ == report_line("item"@, tokens_text(stream_tokens(*item))),
{
    let attr_text = stream_to_string(attr);
    let item_text = stream_to_string(item);
    let mut first = String::from_str("attr");
    first.append(": \"");
    first.append(attr_text.as_str());
    first.append("\"");
    let mut second = String::from_str("item");
    second.append(": \"");
    second.append(item_text.as_str());
    second.append("\"");
    (first, second)
}

/// The head of the generated test: its attribute, `fn`, the name taken from
/// the wrapped function, and an empty parameter list.
pub open spec fn flaky_head_text(name: Seq<char>) -> Seq<char> {
    "#[test] fn "@ + name + "()"@
}

/// The retry loop of the generated test, up to the call of the wrapped
/// function.
pub open spec fn flaky_loop_start() -> Seq<char> {
    "for i in 0..3 { println!(\"flaky_test retry {}\", i); let r = std :: panic :: catch_unwind(|| { "@
}

/// The rest of the retry loop, after the call of the wrapped function.
pub open spec fn flaky_loop_end() -> Seq<char> {
    "(); }); if r.is_ok() { return; } if i == 2 { std :: panic :: resume_unwind(r.unwrap_err()); } }"@
}

/// The retry loop of the generated test: it runs the wrapped function,
/// called by its name, up to three times.
pub open spec fn flaky_loop_text(name: Seq<char>) -> Seq<char> {
    flaky_loop_start() + name + flaky_loop_end()
}

/// The token trees of the test generated around the function named `name`
/// whose trees are `item`: the lexed head, then one braced body that holds
/// the function's trees unchanged followed by the lexed retry loop; `None`
/// where the head or the loop does not lex.
pub open spec fn flaky_expansion(name: Seq<char>, item: Seq<Tree>) -> Option<Seq<Tree>> {
    match (lexed_tokens(flaky_head_text(name)), lexed_tokens(flaky_loop_text(name))) {
        (Some(head), Some(retry)) => Some(head.push(Tree::Group(Delim::Brace, item + retry))),
        _ => None,
    }
}

/// Builds the source of the head of the generated test.
pub fn flaky_head_source(name: &str) -> (src: String)
    ensures
        src@ == flaky_head_text(name@),
{
    let mut src = String::from_str("#[test] fn ");
    src.append(name);
    src.append("()");
    src
}

/// Builds the source of the retry loop of the generated test.
pub fn flaky_loop_source(name: &str) -> (src: String)
    ensures
        src@ == flaky_loop_text(name@),
{
    let mut src = String::from_str(
        "for i in 0..3 { println!(\"flaky_test retry {}\", i); let r = std :: panic :: catch_unwind(|| { ",
    );
    src.append(name);
    src.append(
        "(); }); if r.is_ok() { return; } if i == 2 { std :: panic :: resume_unwind(r.unwrap_err()); } }",
    );
    src
}

/// Why an expansion could not be produced.
#[derive(PartialEq, Eq, Structural, Clone, Copy, Debug)]
pub enum ExpandError {
    /// The generated head or retry loop was refused by the lexer.
    Unlexable,
}

/// The tokens of the test generated around the function named `name` whose
/// tokens are `item`; the function's tokens are spliced in unchanged.
pub fn expand_flaky_fn(name: &str, item: TokenStream) -> (out: Result<TokenStream, ExpandError>)
    ensures
        match out {
            Ok(ts) => flaky_expansion(name@, stream_tokens(item)) == Some(stream_tokens(ts)),
            Err(e) => e == ExpandError::Unlexable && flaky_expansion(name@, stream_tokens(item)) is None,
        },
{
    let head_src = flaky_head_source(name);
    let loop_src = flaky_loop_source(name);
    match (lex(head_src.as_str()), lex(loop_src.as_str())) {
        (Ok(head), Ok(retry)) => {
            let body = concat_streams(item, retry);
            let braced = brace_group(body);
            Ok(concat_streams(head, braced))
        },
        _ => Err(ExpandError::Unlexable),
    }
}

/// What `flaky_test` gives for input with the given token trees: the
/// report of the parse error where they are no function item; otherwise the
/// expansion around the parsed function's name and printed-back trees, or
/// `Unlexable` where its head or retry loop does not lex.
pub open spec fn flaky_test_result(input: Seq<Tree>) -> Result<Seq<Tree>, ExpandError> {
    match parse_outcome(input) {
        Err(report) => Ok(report),
        Ok((name, item)) => match flaky_expansion(name, item) {
            Some(trees) => Ok(trees),
            None => Err(ExpandError::Unlexable),
        },
    }
}

/// The token trees of a result of `flaky_test`.
pub open spec fn result_tokens(out: Result<TokenStream, ExpandError>) -> Result<
    Seq<Tree>,
    ExpandError,
> {
    match out {
        Ok(ts) => Ok(stream_tokens(ts)),
        Err(e) => Err(e),
    }
}

/// The attribute that registers a flaky test: the function it is put on is
/// wrapped into a test of the same name that holds it and runs it up to
/// three times, failing only when all three runs fail. Input that is no
/// function item gives the tokens of the parse error; the attribute's own
/// tokens are not read.
pub fn flaky_test(attr: TokenStream, input: TokenStream) -> (out: Result<TokenStream, ExpandError>)
    ensures
        result_tokens(out) == flaky_test_result(stream_tokens(input)),
        parse_outcome(stream_tokens(input)) is Err ==> (out matches Ok(ts) && reports_compile_error(
            stream_tokens(ts),
        )),
        parse_outcome(stream_tokens(input)) matches Ok((name, item)) ==> declares_fn(name, item),
{
    match parse_fn(input) {
        Err(report) => Ok(report),
        Ok(parsed) => expand_flaky_fn(parsed.name.as_str(), parsed.tokens),
    }
}

/// The attribute of `flaky_test` has no influence: two results for the same
/// input hold the same token trees, or are the same error.
pub proof fn lemma_flaky_test_ignores_attribute(
    input: TokenStream,
    out_a: Result<TokenStream, ExpandError>,
    out_b: Result<TokenStream, ExpandError>,
)
    requires
        result_tokens(out_a) == flaky_test_result(stream_tokens(input)),
        result_tokens(out_b) == flaky_test_result(stream_tokens(input)),
    ensures
        result_tokens(out_a) == result_tokens(out_b),
{
}

/// The line that `flaky_test` reports when it expands a function: `name: `
/// and the function's identifier as `{:#?}` prints it; none for input that
/// is no function item.
pub fn flaky_test_diagnostic(input: TokenStream) -> (line: Option<String>)
    ensures
        match parse_outcome(stream_tokens(input)) {
            Ok((name, _)) => line matches Some(l) && l@ == "name: "@ + ident_debug(name),
            Err(_) => line is None,
        },
{
    match parse_fn(input) {
        Err(_) => None,
        Ok(parsed) => {
            let mut line = String::from_str("name: ");
            line.append(parsed.name_debug.as_str());
            Some(line)
        },
    }
}

/// The generated test holds the wrapped function unchanged: the expansion
/// ends with one braced body whose first trees are the function's trees,
/// followed by the retry loop.
pub proof fn lemma_expansion_holds_fn(name: Seq<char>, item: Seq<Tree>)
    ensures
        flaky_expansion(name, item) matches Some(trees) ==> {
            &&& trees.len() >= 1
            &&& trees.last() matches Tree::Group(Delim::Brace, body) && body.len() >= item.len()
                && body.take(item.len() as int) == item
        },
{
    if let Some(trees) = flaky_expansion(name, item) {
        let retry = lexed_tokens(flaky_loop_text(name)).unwrap();
        assert((item + retry).take(item.len() as int) =~= item);
    }
}

/// The generated test is named after the wrapped function, and its retry
/// loop calls the function by that name.
pub proof fn lemma_expansion_named_after_fn(name: Seq<char>)
    ensures
        flaky_head_text(name).take(("#[test] fn "@ + name).len() as int) == "#[test] fn "@ + name,
        flaky_loop_text(name).subrange(
            flaky_loop_start().len() as int,
            (flaky_loop_start().len() + name.len()) as int,
        ) == name,
{
    let head = "#[test] fn "@ + name;
    assert((head + "()"@).take(head.len() as int) =~= head);
    assert(flaky_loop_text(name).subrange(
        flaky_loop_start().len() as int,
        (flaky_loop_start().len() + name.len()) as int,
    ) =~= name);
}

} // verus!
