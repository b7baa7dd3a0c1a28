# cranelift (verified pieces)

Verified building blocks of a code generator, written in Verus:

- `settings`, `shared_flags`, `flags`, `settings_laws`: the settings template, its
  hash table lookup (`constant_hash`), the `Builder` that sets values by name, the shared
  `Flags` with their getters and TOML display, and the laws that tie them together.
- `isa::registers` and `isa::{arm32,arm64,riscv}::registers`: register banks and classes,
  register unit names and their parsing.
- `binemit`: the in-memory code sink (bytes, relocations, trap sites).
- `isa::riscv::binemit`, `isa::riscv::enc_tables`: RISC-V instruction words and the
  encoding predicates.
- `isa::x86::binemit`, `isa::x86::recipes`: x86 prefix, ModR/M and SIB helpers, and the
  x86 encoding recipes, each with what it requires of an instruction and what it emits.
- `regalloc`: value locations and the register diversions that register moves, spills and
  fills record while an instruction is emitted.
- `legalizer`: a function model (instructions, layout with block headers, value types, jump
  tables, encodings), its editing operations, the pattern groups `expand`, `expand_flags`,
  `narrow`, `narrow_flags`, `narrow_no_flags` and `widen` (each one states exactly which
  function it leaves behind, including the block-splitting lowerings of `br_table`, `select`,
  conditional traps and `brnz`), `legalize_inst` (with the resolution of `isplit`), the driver
  `legalize_function`, and laws on what the narrowing rewrites compute (`legalizer::laws`).
- `wasm::translation_utils`: WebAssembly index types and the conversion of
  `wasmparser` types to IR value types.

Instruction operands are given to the encoders after register allocation, as plain values
(`ir::InstructionData` for RISC-V, `isa::x86::binemit::InstOperands` for x86).

## Not covered

- Expanding calls, global values, heap addresses and table addresses, the ABI handling of calls
  and returns in `legalize_inst`, its library-call fallback, the simplification of branch
  arguments, and block-parameter splitting: they need signatures, globals, heaps, tables and
  library functions that the function model does not hold.
- The pattern contracts describe the rewritten function structurally (which instructions,
  with which operands and types, stand where). That it computes the same values as the
  function before the rewrite is stated only for the halves that narrowing compares and
  addresses (`legalizer::laws`), and not for comparisons of 128-bit values.
- `legalize_function` returns `false` and stops where an instruction falls outside the model
  (see `can_legalize`), or where instruction and value numbers would run out.
- The ARM32 encoder and the RISC-V encoding tables are not included; `add_stackmap` records
  only the code offset of a stack map.
