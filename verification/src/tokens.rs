//! The token streams of `proc_macro2`, and the calls into it, into `syn` and
//! into `quote` that the macros make. Everything here is trusted: each item
//! says which outside function it calls and what its contract claims of it.
//!
//! A stream is seen through `stream_tokens`, its token trees as plain values
//! (`Tree`). Spans carry no data in the stand-alone `proc_macro2` used here,
//! so lexing, printing and parsing depend on those values alone, and their
//! results are named as functions of them.

use proc_macro2::{LexError, TokenStream};
use syn::ItemFn;
use vstd::prelude::*;

verus! {

/// `proc_macro2::TokenStream`, carried through the macros as an opaque value.
#[verifier::external_type_specification]
#[verifier::external_body]
pub struct ExTokenStream(TokenStream);

/// `proc_macro2::LexError`, what lexing gives back on a text it refuses.
#[verifier::external_type_specification]
#[verifier::external_body]
pub struct ExLexError(LexError);

/// The delimiter of a group of token trees.
pub enum Delim {
    /// `( ... )`
    Parenthesis,
    /// `{ ... }`
    Brace,
    /// `[ ... ]`
    Bracket,
    /// An invisible group, which prints as its contents alone.
    Invisible,
}

/// A token tree as a plain value: a group with its delimiter and contents,
/// an identifier or a literal by the text it prints as, or a punctuation
/// character with whether it is joined to the next one.
pub enum Tree {
    Group(Delim, Seq<Tree>),
    Ident(Seq<char>),
    Punct(char, bool),
    Literal(Seq<char>),
}

/// The contents of a token stream: its top-level token trees, in order.
pub uninterp spec fn stream_tokens(ts: TokenStream) -> Seq<Tree>;

/// The text that token trees print as (the `Display` of a stream holding them).
pub uninterp spec fn tokens_text(trees: Seq<Tree>) -> Seq<char>;

/// What lexing a source text gives: the trees of the stream it yields, or
/// `None` where the lexer refuses the text.
pub uninterp spec fn lexed_tokens(src: Seq<char>) -> Option<Seq<Tree>>;

/// What parsing token trees as a function item gives: the text of the
/// function's name and the item printed back as trees, or, where they are no
/// function item, the trees that report the parse error.
pub uninterp spec fn parse_outcome(input: Seq<Tree>) -> Result<(Seq<char>, Seq<Tree>), Seq<Tree>>;

/// Whether the trees hold the keyword `fn` directly followed by the
/// identifier `name`, at their top level.
pub open spec fn declares_fn(name: Seq<char>, trees: Seq<Tree>) -> bool {
    exists|k: int|
        0 <= k && k + 1 < trees.len() && #[trigger] trees[k] == Tree::Ident("fn"@) && trees[k
            + 1] == Tree::Ident(name)
}

/// What `{:#?}` prints for an identifier with the given text.
pub open spec fn ident_debug(name: Seq<char>) -> Seq<char> {
    "Ident(\n    "@ + name + ",\n)"@
}

/// Whether eight trees are one `::core::compile_error! { "message" }`.
pub open spec fn compile_error_block(b: Seq<Tree>) -> bool {
    &&& b.len() == 8
    &&& b[0] == Tree::Punct(':', true)
    &&& b[1] == Tree::Punct(':', false)
    &&& b[2] == Tree::Ident("core"@)
    &&& b[3] == Tree::Punct(':', true)
    &&& b[4] == Tree::Punct(':', false)
    &&& b[5] == Tree::Ident("compile_error"@)
    &&& b[6] == Tree::Punct('!', false)
    &&& b[7] matches Tree::Group(Delim::Brace, inner) && inner.len() == 1
        && inner[0] is Literal
}

/// The `k`-th block of eight trees.
pub open spec fn block(trees: Seq<Tree>, k: int) -> Seq<Tree> {
    trees.subrange(8 * k, 8 * k + 8)
}

/// Whether the trees are one or more `::core::compile_error!` invocations.
pub open spec fn reports_compile_error(trees: Seq<Tree>) -> bool {
    &&& trees.len() >= 8
    &&& trees.len() % 8 == 0
    &&& forall|k: int| 0 <= k < trees.len() / 8 ==> compile_error_block(#[trigger] block(trees, k))
}

/// Calls `proc_macro2::TokenStream::new`, which returns a stream with no
/// token trees in it.
#[verifier::external_body]
pub(crate) fn empty_stream() -> (ts: TokenStream)
    ensures
        stream_tokens(ts) == Seq::<Tree>::empty(),
{
    TokenStream::new()
}

/// Calls `<proc_macro2::TokenStream as FromStr>::from_str`. Lexing depends on
/// the text alone: the stream it yields, or its refusal, is the one that
/// `lexed_tokens` names for that text.
#[verifier::external_body]
pub(crate) fn lex(src: &str) -> (r: Result<TokenStream, LexError>)
    ensures
        match r {
            Ok(ts) => lexed_tokens(src@) == Some(stream_tokens(ts)),
            Err(_) => lexed_tokens(src@) is None,
        },
{
    <TokenStream as core::str::FromStr>::from_str(src)
}

/// Calls `to_string` on a `proc_macro2::TokenStream`, through its `Display`
/// impl, which prints the stream's trees: the text is the one that
/// `tokens_text` names for them.
#[verifier::external_body]
pub(crate) fn stream_to_string(ts: &TokenStream) -> (s: String)
    ensures
        s@ == tokens_text(stream_tokens(*ts)),
{
    ts.to_string()
}

/// Appends one stream to another through
/// `<proc_macro2::TokenStream as Extend<TokenStream>>::extend`, which pushes
/// the trees of the second after those of the first, unchanged.
#[verifier::external_body]
pub(crate) fn concat_streams(first: TokenStream, second: TokenStream) -> (ts: TokenStream)
    ensures
        stream_tokens(ts) == stream_tokens(first) + stream_tokens(second),
{
    let mut ts = first;
    ts.extend(core::iter::once(second));
    ts
}

/// Calls `proc_macro2::Group::new` with `Delimiter::Brace` and converts the
/// group into a stream of that one tree (`TokenStream::from`).
#[verifier::external_body]
pub(crate) fn brace_group(body: TokenStream) -> (ts: TokenStream)
    ensures
        stream_tokens(ts) == seq![Tree::Group(Delim::Brace, stream_tokens(body))],
{
    let group = proc_macro2::Group::new(proc_macro2::Delimiter::Brace, body);
    TokenStream::from(proc_macro2::TokenTree::Group(group))
}

/// What the flaky-test attribute reads of a parsed function item.
pub struct ParsedFn {
    /// The function's identifier, as it prints.
    pub name: String,
    /// The identifier as `{:#?}` prints it.
    pub name_debug: String,
    /// The whole function item (attributes, signature and body) as tokens.
    pub tokens: TokenStream,
}

/// Calls `syn::parse2::<syn::ItemFn>` and converts its result: a parsed item
/// into the text of `sig.ident` (its `Display`, and its `{:#?}`) and the item
/// printed back by `quote::ToTokens::to_token_stream`; a `syn::Error` into its
/// `to_compile_error` tokens. The outcome depends on the input's trees alone,
/// as `parse_outcome` names it. syn prints a signature as the `fn` keyword
/// followed by the identifier; each error message becomes one
/// `::core::compile_error! { "message" }`, and an error has at least one.
/// The message texts and the rest of the printed item are not stated.
#[verifier::external_body]
pub(crate) fn parse_fn(input: TokenStream) -> (r: Result<ParsedFn, TokenStream>)
    ensures
        match r {
            Ok(parsed) => {
                &&& parse_outcome(stream_tokens(input)) == Ok::<(Seq<char>, Seq<Tree>), Seq<Tree>>(
                    (parsed.name@, stream_tokens(parsed.tokens)),
                )
                &&& declares_fn(parsed.name@, stream_tokens(parsed.tokens))
                &&& parsed.name_debug@ == ident_debug(parsed.name@)
            },
            Err(report) => {
                &&& parse_outcome(stream_tokens(input)) == Err::<(Seq<char>, Seq<Tree>), Seq<Tree>>(
                    stream_tokens(report),
                )
                &&& reports_compile_error(stream_tokens(report))
            },
        },
{
    match syn::parse2::<ItemFn>(input) {
        Ok(item) => Ok(ParsedFn {
            name: item.sig.ident.to_string(),
            name_debug: format!("{:#?}", item.sig.ident),
            tokens: quote::ToTokens::to_token_stream(&item),
        }),
        Err(err) => Err(err.to_compile_error()),
    }
}

} // verus!
