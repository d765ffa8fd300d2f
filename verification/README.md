# nexus

Parts of the implementation of Nexus, a keyword-oriented language with
algebraic effects, linear bindings and labelled arguments, written in Verus
with their contracts proved.

- `src/ast.rs`: the types, literals, sigils and operators the compiler's
  intermediate representations carry; types have a mathematical model.
- `src/ir/`: the high-level (`hir`), mid-level (`mir`) and low-level (`lir`)
  intermediate representations.
- `src/interpreter/`: runtime values and the decisions of the built-in
  functions (`print`, conversions to strings, drops).
- `src/natives/`: the integer, clock and line-reading logic of the host
  libraries exported to compiled programs.
- `src/repl/`: the interactive shell's logic: telling unfinished input from
  wrong input, the pending-input state machine with its `:` commands and
  what follows a parse, the names offered for completion, and what follows
  the type check of new definitions.
- `src/text.rs`: character-level text helpers (whitespace, trimming, prefixes,
  the string order).
- `app/`: the unverified host side: the exported functions with their I/O
  and floating point, the built-ins with their output, and the shell's
  read-eval-print loop over a language front end.
