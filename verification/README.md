# pyo3_model

A verified model of parts of a Rust binding to Python objects, written in Verus.
Every function in `src/` carries a `requires`/`ensures` contract that Verus proves.

## Layout

- `src/types/`: Python objects as plain values (`PyAny`), sets and dicts whose elements
  stay unique and hashable, frozen dicts, `bytes`, frames, and the iterators over them.
- `src/inspect/`: type hints (`TypeInfo`), their names, modules and hint notation.
- `src/byteswriter.rs`: a positional writer that builds `bytes`, with seeking, and laws
  about consecutive writes.
- `src/bytes_writer.rs`: an appending writer with capacity management.
- `src/buffers.rs`: what both writers share.
- `src/conversions/`: the Python mode of a file descriptor, and backtrace frames.
- `src/err.rs`: the Python exceptions the library raises.
- `app/`: what cannot be verified: `std::io` and `Display` impls, file descriptor I/O,
  and reading backtraces through `btparse`.
- `tests/`: tests on concrete values.
