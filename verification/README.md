# atomr_accel_cuda

Verified core of a CUDA backend for actor systems. The library decides what is to
be done for a request: whether its buffers are still valid, which library call it
becomes, what waits while a context is rebuilt, and what the caller gets. It makes
no CUDA call itself.

- `src/error.rs` errors and the supervisor's decisions on them
- `src/device/` devices: configuration, shared state, allocation and copy requests,
  and the queue of work while the context is away
- `src/gpu_ref.rs` references to device buffers, valid for one generation, and the
  table of what the references to a buffer share
- `src/dtype.rs` element types and the libraries' names for them
- `src/kernel/` the library actors (BLAS, BLASLt, collectives, cuDNN graphs) and the
  launch envelope they share
- `src/graph/` recording and replay of graphs
- `src/event/`, `src/hopper/` events, tensor maps and cluster launches
- `src/steps.rs`, `src/driver_call.rs`, `src/text.rs` shared pieces
- `app/` the runtime: CUDA calls, actors, reply channels, files and floating point

Public proof functions whose names start with `law_` state what holds across
several functions. The functions that call into the `lru` crate are the only
trusted ones; their doc comments say what is believed of each.
