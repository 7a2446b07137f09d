//! Laws of the macros, stated over their inputs and the outside names
//! alone: what the generated tests and reports are, for every input.

use crate::macros::{
    answer_source, flaky_expansion, flaky_head_text, flaky_loop_text, flaky_test_result,
    report_line, ExpandError,
};
use crate::retry::FLAKY_ATTEMPTS;
use crate::tokens::{ident_debug, lexed_tokens, parse_outcome, Delim, Tree};
use vstd::prelude::*;

verus! {

/// The decimal digit for a number below ten.
pub open spec fn digit(d: int) -> char {
    (48 + d) as char
}

/// The source of a test head: `#[test] fn `, the name, `()`.
pub open spec fn test_head_source(name: Seq<char>) -> Seq<char> {
    seq!['#', '[', 't', 'e', 's', 't', ']', ' ', 'f', 'n', ' '] + name + seq!['(', ')']
}

/// The source of a retry loop over `0..FLAKY_ATTEMPTS` that calls `name`,
/// returns on the first call that does not panic and resumes the panic at
/// `i == FLAKY_ATTEMPTS - 1`.
pub open spec fn retry_loop_source(name: Seq<char>) -> Seq<char> {
    "for i in 0.."@ + seq![digit(FLAKY_ATTEMPTS as int)]
        + " { println!(\"flaky_test retry {}\", i); let r = std :: panic :: catch_unwind(|| { "@
        + name + "(); }); if r.is_ok() { return; } if i == "@ + seq![digit(FLAKY_ATTEMPTS - 1)]
        + " { std :: panic :: resume_unwind(r.unwrap_err()); } }"@
}

/// The head of the generated test is `#[test] fn `, the wrapped function's
/// name, and `()`, for every name: thirteen characters more than the name.
pub proof fn lemma_head_is_test_named_after_fn(name: Seq<char>)
    ensures
        flaky_head_text(name) =~= seq!['#', '[', 't', 'e', 's', 't', ']', ' ', 'f', 'n', ' '] + name
            + seq!['(', ')'],
        flaky_head_text(name).len() == name.len() + 13,
{
    reveal_strlit("#[test] fn ");
    reveal_strlit("()");
}

/// The retry loop of the generated test, for every name: it counts `i`
/// over `0..FLAKY_ATTEMPTS`, calls the wrapped function by its name, returns
/// on the first call that does not panic, and resumes the panic only at
/// `i == FLAKY_ATTEMPTS - 1`, after every attempt failed. Only the name
/// varies from one function to another.
pub proof fn lemma_loop_retries_all_attempts(name: Seq<char>)
    ensures
        flaky_loop_text(name) =~= retry_loop_source(name),
{
    reveal_strlit("for i in 0..3 { println!(\"flaky_test retry {}\", i); let r = std :: panic :: catch_unwind(|| { ");
    reveal_strlit("(); }); if r.is_ok() { return; } if i == 2 { std :: panic :: resume_unwind(r.unwrap_err()); } }");
    reveal_strlit("for i in 0..");
    reveal_strlit(" { println!(\"flaky_test retry {}\", i); let r = std :: panic :: catch_unwind(|| { ");
    reveal_strlit("(); }); if r.is_ok() { return; } if i == ");
    reveal_strlit(" { std :: panic :: resume_unwind(r.unwrap_err()); } }");
    assert(digit(3) == '3');
    assert(digit(2) == '2');
}

/// The two lines that `show_streams` reports are each the label, `: "`,
/// the whole text, and `"`: four characters more than label and text.
pub proof fn lemma_report_line_holds_whole_text(label: Seq<char>, text: Seq<char>)
    ensures
        report_line(label, text) =~= label + seq![':', ' ', '"'] + text + seq!['"'],
        report_line(label, text).len() == label.len() + text.len() + 4,
        report_line(label, text).subrange(label.len() + 3int, label.len() + 3int + text.len()) =~= text,
{
    reveal_strlit(": \"");
    reveal_strlit("\"");
    assert(report_line(label, text) =~= label + seq![':', ' ', '"'] + text + seq!['"']);
}

/// The expansion around a function exists exactly when its head and retry
/// loop lex, and then it is the lexed head `#[test] fn name()` followed by
/// one braced body: the function's trees, then the lexed retry loop.
pub proof fn lemma_expansion_is_test_around_fn(name: Seq<char>, item: Seq<Tree>)
    ensures
        flaky_expansion(name, item) == match (
            lexed_tokens(test_head_source(name)),
            lexed_tokens(retry_loop_source(name)),
        ) {
            (Some(head), Some(retry)) => Some(head.push(Tree::Group(Delim::Brace, item + retry))),
            _ => None::<Seq<Tree>>,
        },
{
    lemma_head_is_test_named_after_fn(name);
    lemma_loop_retries_all_attempts(name);
    assert(flaky_head_text(name) == test_head_source(name));
    assert(flaky_loop_text(name) == retry_loop_source(name));
}

/// What `flaky_test` gives, for every input: a function item named `n` with
/// trees `t` becomes the lexed head `#[test] fn n()` followed by one braced
/// body holding `t` and then the lexed retry loop (or `Unlexable` when the
/// head or the loop does not lex); input that is no function item gives the
/// parse error's report.
pub proof fn lemma_flaky_test_wraps_every_parsed_fn(input: Seq<Tree>)
    ensures
        parse_outcome(input) matches Ok((n, t)) ==> flaky_test_result(input) == match (
            lexed_tokens(test_head_source(n)),
            lexed_tokens(retry_loop_source(n)),
        ) {
            (Some(head), Some(retry)) => Ok::<Seq<Tree>, ExpandError>(
                head.push(Tree::Group(Delim::Brace, t + retry)),
            ),
            _ => Err::<Seq<Tree>, ExpandError>(ExpandError::Unlexable),
        },
        parse_outcome(input) matches Err(report) ==> flaky_test_result(input) == Ok::<
            Seq<Tree>,
            ExpandError,
        >(report),
{
    if let Ok((n, t)) = parse_outcome(input) {
        lemma_expansion_is_test_around_fn(n, t);
    }
}

/// The function that `make_answer` generates is `fn answer() -> u32 { 42 }`.
pub proof fn lemma_answer_source_is_answer_fn()
    ensures
        answer_source() =~= "fn answer() -> u32 "@ + seq!['{', ' ', '4', '2', ' ', '}'],
{
    reveal_strlit("fn answer() -> u32 { 42 }");
    reveal_strlit("fn answer() -> u32 ");
}

/// The name in the line that `flaky_test` reports is shown as `{:#?}` shows
/// an identifier: `Ident(`, a line break and four spaces, the name, `,`, a
/// line break and `)`.
pub proof fn lemma_diagnostic_shows_ident(name: Seq<char>)
    ensures
        ident_debug(name) =~= seq!['I', 'd', 'e', 'n', 't', '(', '\n', ' ', ' ', ' ', ' '] + name
            + seq![',', '\n', ')'],
{
    reveal_strlit("Ident(\n    ");
    reveal_strlit(",\n)");
}

} // verus!
