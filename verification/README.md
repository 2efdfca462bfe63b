# libriscv

A safe Rust wrapper around libriscv, a fast RISC-V sandbox emulator, whose decisions are
verified with Verus.

## Layout

- `src/` — the verified library (crate `libriscv`):
  - `options` — `OptionsBuilder` and `Options`: the values a machine's options record
    receives, the program arguments, and the default exit function; `build` refuses too many
    arguments and strings that hold a NUL byte.
  - `syscall` — `SyscallId` (below `SYSCALLS_MAX`), syscall handler handles, handler tables
    (`SyscallRegistryBuilder`, `SyscallRegistry`), `SyscallResult`.
  - `callbacks` — error and stdout callback handles, `ErrorType`.
  - `machine` — what a machine operation decides around its libriscv call: ELF and transfer
    sizes, page-aligned ranges, register indices, single-step results, page attributes and
    arena reallocation results.
  - `error` — `Error`, how a libriscv status code becomes a result, and the text each error
    prints.
  - `attributes` — what the handler attributes accept, read from the source text of the code
    they are written on through `syn`: handler signatures, `#[syscall(id = N)]` arguments, and
    the syscall numbers of a registry module (each at most once).
  - `text` — decimal and hexadecimal rendering of integers.
- `app/` — the FFI side: `Machine`, `Registers`, `SyscallContext`, the callback contexts and
  global handler registration over libriscv's C interface, and the code that the handler
  attributes write, over `proc_macro2` token streams. It links against the libriscv C library.
- `tests/` — tests of the library.

Run `verus` on `src/lib.rs` to check the proofs.
