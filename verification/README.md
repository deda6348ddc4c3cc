# core_ir

The intermediate representation that the compiler's stages pass to each other,
and its coloured terminal listing, verified with Verus.

- `src/ir.rs`: `Instruction`, `Module`, `ChannelIr`; the nesting depth of a
  sequence of instructions, the line each instruction prints, and
  `Module::to_string`, whose result is proved equal to the listing.
- `src/laws.rs`: proofs of how the listing behaves under `push` and how scopes
  line up.
- `src/text.rs`: indentation, repeated characters and decimal numbers.
- `src/ansi.rs`, `src/signature.rs`, `src/position.rs`: colours, signatures and
  source positions.
- `app/`: the serde-serialisable copies of the types and their `Display`.
