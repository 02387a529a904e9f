# rslean

A verified front end and kernel core for Lean 4, written in Verus: hierarchical
names, universe levels, expressions, a lexer and a recursive-descent parser for
Lean 4 source, a reader for compacted `.olean` module files, an environment of
constants, a type checker, and a tree-walking interpreter for kernel
expressions. Verus proves the functions of `src/` against their contracts; the
`for_each` visitors, whose effect lies in the caller's closure, carry none. The
calls into `num-bigint` and `rustc-hash` go through small trusted wrappers
whose contracts state what those crates document.

The interpreter evaluates pure kernel expressions under a step limit and a
depth limit, with the builtins of natural-number, string, boolean and array
arithmetic. It has no effectful builtins (`IO`, `ST` references, tasks) and no
cache of constant values, so it does not run Lean's own front end.

## Layout

- `src/name.rs`, `name_order.rs`, `name_laws.rs`: names, their hash, order and
  dotted text, with the laws of the order and of the text round trip.
- `src/level*.rs`: universe levels, their smart constructors, instantiation,
  normalization, comparison and display.
- `src/expr*.rs`, `literal.rs`, `constant_info.rs`, `quot.rs`: expressions with
  cached metadata, de Bruijn lifting, lowering, instantiation and abstraction,
  structural equality and display, and the laws relating them.
- `src/lexer.rs`, `token.rs`, `keyword.rs`, `tokkind.rs`: the lexer, whose
  tokens come in order, end with `Eof`, and spell the source under their spans.
- `src/parser.rs`, `parse_expr.rs`, `parse_command.rs`, `pratt.rs`, `syntax.rs`,
  `node_kind.rs`, `span.rs`: concrete syntax trees and the parser.
- `src/region.rs`, `olean*.rs`, `deserialize.rs`: the `.olean` header, the
  compacted region and a reader whose result equals a decoding function stated
  over the bytes.
- `src/environment.rs`, `type_checker.rs`, `expr_checks.rs`, `kernel_error.rs`,
  `stats.rs`: the environment, the type checker with a step budget, and
  declaration statistics.
- `src/interp.rs`: runtime values, local environments, interpreter errors,
  the builtins and the rule selection of iota reduction.
- `src/eval.rs`: the interpreter: evaluation, application of closures, the
  values of constants and recursors, and the short-circuit of `ite`/`dite`.
- `src/module_files.rs`: where a module's `.olean` file lies under a search
  path, and the breadth-first order in which files and their imports load.
- `tests/`: tests of the library through its public interface.
- `app/`: the command-line checker: argument handling, file reading and the
  existence checks of module search, with serde and error types for the
  library's values.
