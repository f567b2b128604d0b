# conflux-residency

Resource residency bookkeeping for simulation buffers, written in Verus: every
operation carries a contract over a mathematical model, and the properties
that span operations are stated and proved as proof functions.

## Layout

- `src/residency_core/` — the synchronization core.
  - `graph.rs`, `graph/*` — `SyncGraph`: registration, typed and raw patches,
    event-ring appends, GPU mutations, view planning, transfer planning and
    the running report. `graph/model.rs` holds the model (`GraphView`) and,
    for each operation, the spec function that says what it does to the model
    and what it returns; each executable operation is proved to compute it.
  - `fake_backend.rs`, `fake_backend/*` — an in-memory `ResidencyBackend`
    with its own model (`FakeView`).
  - `laws.rs` — properties across operations: generations never move
    backwards, uploads and growth follow their policies, views respect policy
    and freshness, full readbacks and exact-freshness stalls are never hidden,
    a range view reads back what an upload wrote, event candidates read back
    the appended records, and decoding in one byte order undoes encoding.
  - `runs.rs` — the same over whole sequences of operations: resources are
    never dropped, come only from registration, and their generations and
    capacities only move forward, capacities only by powers of two; an
    operation touches no resource but the one it writes when accepted.
  - `bytes.rs` — the only trusted code: four wrappers around `bytemuck` that
    reinterpret element slices as native-endian bytes and back. Their
    contracts state that each value's bytes are its little- or big-endian
    encoding, one order per call; which one depends on the machine.
  - `text.rs` — verified renderings (`to_string`) of generations, selectors,
    warnings and reports.
- `src/runtime/` — execution-path selection (`resolve_path`,
  `resolve_query_path`), GPU evidence reports, and plain report records.
- `src/bridge/` — sync contracts, kernel-to-resource mapping, shader binding
  mapping with generated (hex-scoped) ids, the bridge's errors, the
  `ResidencyReport` with its evidence conversions, and `sync_kernel_output`,
  one full declare/upload/plan/read-back cycle against any backend, whose
  last step, `complete_readback`, is stated exactly over the served bytes.
- `tests/` — scenario tests, including concrete instances of the laws.

Floating-point values cross the library as bit patterns (`F32Bits`,
`F64Bits`); summaries over `f32` data compare bit patterns with the IEEE order.
