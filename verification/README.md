# sqparse

A verified parser for Squirrel, in the Vanilla and Respawn flavors, written in Verus.

- `src/token.rs`: tokens, as a lexer produces them.
- `src/lexer.rs`: delimiter matching over a lexed token stream. Every opening delimiter gets
  the index of the token that closes it; the laws in this file state that close indices point
  forward at the matching closer, that trees nest, and when tokenizing succeeds.
- `src/ast.rs`: the syntax tree. Tokens are referred to by their index in the token list.
- `src/error.rs`: parse errors, their fatality and the construct they were met in.
- `src/parser/`: one module per part of the grammar. Every parsing function is specified by a
  spec function of the same name with a `spec_` prefix, which gives its result for every
  token list; successful parses move forward through the tokens.

The tests under `tests/` build token lists by hand and check parses of concrete input.
