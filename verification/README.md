# gosub_engine

The HTML5 parsing part of the Gosub browser engine: an input stream, a
tokenizer, a node arena with a document, and the tree builder that turns
tokens into a document, written in Verus and proved against its contracts.

## Layout

- `src/html5_parser/input_stream.rs`: the character stream (UTF-8 or ASCII
  bytes, CR/LF normalised), with reading, unreading, seeking and positions.
- `src/html5_parser/tokenizer_spec.rs`: the tokenizer's state machine as spec
  functions, one step per state; `tokenizer.rs` runs it and is proved to
  follow it.
- `src/html5_parser/node.rs`, `node_arena.rs`, `parser/document.rs`: nodes,
  the arena that numbers them, and the document.
- `src/html5_parser/parser/`: the tree builder. `tree_spec.rs` states each
  insertion mode over a value model of the builder's state (`BuildView`),
  `tree_builder.rs` implements the modes against it, and `tree_laws.rs`
  proves what every step keeps.
- `src/html5test.rs`: the logic of the html5lib test runner (matching tokens
  and errors, reading tree-construction test files).
- `app/`: the command-line programs (test runners, a small user agent) with
  their file and network I/O and JSON handling.
- `tests/`: the tests, run against the compiled library.

`Html5Parser::parse` runs `parse_step` until the end of the input, an error,
or a given number of steps: every step is proved, but the rules that hand a
token back to be processed again in another insertion mode give no measure
that would prove the whole loop ends, so the caller bounds it. Its result is
exactly `parse_steps` (`tree_spec.rs`) of the starting state: that many steps
of `process` over the tokens the tokenizer's `run` gives. Whatever the
outcome, a document that was a tree rooted at id 0 stays one.
