# rvsim

A cycle-driven RV32I machine model whose library is verified with Verus.

- `src/` — the verified library: instruction decoding and execution units,
  the privileged CSR file and its laws, Sv32 translation with a tagged TLB,
  a reference core and a five-stage pipeline core, the memory map with
  transactions and bursts, a round-robin bus arbiter, a direct-mapped cache,
  the device models (ROM, RAM, DRAM, interrupt sources, an interrupt
  controller, a UART, a block device, a DMA engine) and cycle-count
  microbenchmarks.
- `tests/` — scenario tests run against the compiled library.
- `app/` — a small demonstration computer that prints what it runs; with the
  argument `microbench` it prints the microbenchmark numbers.
