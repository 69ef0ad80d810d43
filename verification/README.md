# gleam_parser

A parser for Gleam modules, written in Rust and verified with Verus.

It takes the tokens of a source file, as a lexer yields them, and makes of them the syntax tree of
a module before type inference, together with the comments and blank lines that stand beside the
tree. It never panics, it stops on every input, and what it returns is stated exactly: the tree for
the inputs that are modules, and for every other input which error comes and where.

- `parse_module` parses a whole module, `parse_expression_sequence` a sequence of expressions.
- `make_call` makes a call of a function and its arguments, some of which may be left open.

## Layout

- `token`, `stream`: tokens, and the sequence of them that a parser reads.
- `ast`, `location`, `extra`, `error`: what comes out.
- `model`: mathematical models of the trees.
- `grammar`: which tokens stand for which tree, and which error comes otherwise.
- `precedence`, `operator`: the tree of a row of operands and operators, and the stack algorithm
  that builds it.
- `call`, `number`: calls with open arguments, and decimal numbers.
- `parser`: the parser, whose contracts are stated in terms of `grammar`.
- `laws`: what holds of the grammar as a whole: how far parsing gets (`places`), on which tokens it
  depends (`elsewhere`), where trees and errors are located (`spans`), how a thing follows from its
  parts (`parts`, `separators`, `operators`, `lists`, `trees`), and whole inputs (`inputs`).

The tokens of an input have to leave room for the offsets that the parser derives from them
(`spans_ok`): a closing bracket or brace ends behind the first byte, and `/.` starts before the last
offset there is.
