# sundials_rs

Bindings to the SUNDIALS ODE/DAE solvers (CVODE, CVODES, IDA, IDAS), split in two:

- `src/` — the verified library (Verus). It decides, for every operation of a
  solver, which SUNDIALS calls are made, in which order, with which sizes and
  option codes, when a call counts as failed and which error it is reported
  as; it runs such a call sequence up to its first failure.
- `app/` — ordinary Rust. It holds the floating-point state, the user
  callbacks and the C objects, declares the C functions, and performs each
  call the library asks for.

`tests/` exercise the library on concrete call plans and outcomes.
