# hurl_parser

A parser for the [Hurl](https://hurl.dev) file format and the completion
keywords of a Hurl language server, written in Verus.

Each parser is an executable function over the characters of the document
whose result is proved equal to a spec function that states the grammar:
the value read, the position after it, and the diagnostics raised. The
public parsers of strings, templates, expressions, file names, option
lines and multiline headers return `Result`: on failure, the place where
reading failed. `read_whole` gives the diagnostic for a text that a parser
did not read to its end. The document parser recovers by skipping lines
and reports the place where the skipped line cannot be read, and JSON
bodies recover from bad items and separators. A diagnostic's message
names what was found there and, where known, what was expected.

## Layout

- `src/base.rs`: diagnostics, the shape of a parse result, repetition, and
  the character classes shared by the grammar.
- `src/types.rs`, `src/model.rs`: the syntax tree and its mathematical view.
- `src/strings.rs`, `src/template.rs`, `src/key_value.rs`, `src/oneline.rs`,
  `src/multiline.rs`, `src/json.rs`: strings, templates and expressions,
  headers, one-line and multiline bodies, JSON.
- `src/method.rs`, `src/http_status.rs`, `src/query.rs`, `src/predicate.rs`,
  `src/options.rs`, `src/request_section.rs`, `src/response_section.rs`,
  `src/body.rs`, `src/document.rs`: the request and response grammar and the
  whole document (`parse_ast`).
- `src/completion.rs`: the completion list, and the proofs that every option
  and section the parser reads is offered and that no label occurs twice.
- `src/diagnostics.rs`: the message of each diagnostic.
- `src/position.rs`: the line and column of a character offset, with the
  lines counted by ropey.
- `app/main.rs`: the language server over stdin/stdout (tower-lsp).
- `tests/`: scenarios of the grammar and properties on concrete inputs.
