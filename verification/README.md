# kcom

A COM runtime core for Windows kernel drivers, written in Verus. The library
in `src/` holds the decisions of the runtime as verified functions over plain
values; `app/` holds the host glue that performs them with raw pointers,
vtables, statics and the clock.

## Layout

- `src/iunknown.rs`: status codes, `Status`, interface identifiers, the
  `IUnknown` table.
- `src/refcount.rs`, `src/wrapper.rs`: reference counting with hardening, the
  delegating and non-delegating `IUnknown` of an object (aggregation) and the
  answers of `QueryInterface`, with their laws.
- `src/smart_ptr.rs`, `src/vtable.rs`, `src/traits.rs`: client references,
  interface descriptions and interface matching.
- `src/async_com.rs`, `src/async_com/fused.rs`, `src/async_com/pool.rs`: the
  state of an asynchronous operation, the status word of a fused task (single
  poller, no lost wake-up), slab bins and aligned placement, and the lookaside
  pool's one-time initialization and routing.
- `src/executor.rs`, `src/task.rs`: DPC and work-item task state machines,
  poll budgets (adaptive, time and poll count), trackers, cancellation, timer
  futures, and cancellable futures with asynchronous cleanup.
- `src/unicode.rs`: UTF-16 encoding and decoding and `UNICODE_STRING`
  construction with its length limits.
- `src/allocator.rs`: pool calls, in-place initialization and its errors.
- `src/trace.rs`, `src/bench_async_com.rs`, `src/async_com_metrics.rs`:
  error report texts, benchmark bookkeeping and counters.
- `tests/`: tests of the library from outside.
- `app/`: raw COM objects with real vtables, the trace hook, counted strings
  with buffers, a host allocator and executor, and the benchmark driver.
