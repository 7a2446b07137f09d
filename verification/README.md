# proc_macro_examples

Four procedural macros written as ordinary functions from token streams
(`proc_macro2`) to token streams, so that their logic can be verified with
Verus and exercised by tests:

- `make_answer` generates `fn answer() -> u32 { 42 }`;
- `show_streams` hands its item back unchanged and reports both inputs;
- `derive_helper_attr` generates nothing;
- `flaky_test` wraps a function into a test that runs it up to three times
  and fails only when every run fails.

`src/tokens.rs` holds the trusted declarations of the outside calls
(`proc_macro2`, `syn`, `quote`); `src/macros.rs` the macros; `src/retry.rs`
a model of the retry policy that the generated tests carry out, with its laws
(the emitted test code runs its own loop and does not call this model; the
example program in `app/` drives its retries through it); `src/examples.rs`
the functions of the example program. `app/main.rs` is that program.

The streams are `proc_macro2`'s stand-alone ones, so they print in its style
(`fn invoke1 () { }` where the compiler prints `fn invoke1() {}`).
`flaky_test` splices the parsed function's tokens into the generated body
unchanged; only the test's head and its retry loop are built as source text
and lexed. Streams are seen in the contracts through `stream_tokens`, their
token trees as plain values, and the outcomes of lexing, printing and
parsing are named as functions of those values.
