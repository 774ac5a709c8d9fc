# slangmake

A wrapper around [slangmake](https://github.com/EvanLuo42/slangmake), a build
tool that compiles Slang shader permutations into a single `.bin` blob
holding every variant's bytecode and reflection data.

The work is split in two:

- `src/` is the verified library (Verus). It holds the values a user reads
  (`Buffer`, `BlobEntry`, `CompileResult`, `PermutationDefines`,
  `DependencyInfo`, the setting enums, `Error`) and the decisions the
  wrapper takes about plain values the slangmake C ABI hands back: status
  codes, null handles, validity flags, the text of C strings, NUL-free
  strings and paths bound for C, null-or-empty buffers and entry fields,
  the outcome of a compile, the dependency table of a blob, absent
  reflection indices. Mappings onto the C ABI's own types (the `sm_*_t`
  enums) stand in `app/`, next to those types.
- `app/` owns the C handles (`Compiler`, `CompileOptions`, `Permutation`,
  `BlobReader`, `BlobWriter`, `Reflection`, `BatchCompiler`, ...) and makes
  every call into the C ABI through the `slangmake-sys` bindings, handing
  what it reads to the library.

`tests/` exercises the library on concrete values.
