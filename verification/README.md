# nanai_gna_dll_load

A GNA (Gaussian & Neural Accelerator) device API over a runtime library whose
entry points are supplied through the `GnaSymbolTable` trait.

- `src/` is the verified library: device lookup, opening, export devices,
  thread settings and device memory buffers, each with its contract.
- `tests/` exercises it against a mock runtime.
- `app/` holds the per-key measurement statistics (floating-point sums and
  averages, a process-wide instance), which stay outside the verified part.
