# raginspect

Inspection and profiling engine for Retrieval Augmented Generation (RAG)
pipelines, written in Verus: the library's behaviour is stated in
`requires`/`ensures` contracts and proved.

## Layout

- `src/` — the verified library
  - `types`, `config` — architectures, modes, verdicts, report records and the
    pipeline configuration
  - `topology`, `classifier` — component detection and architecture scoring
  - `inspector` — the simulated retrieval, context and generation stages, the
    health score and the recommendations
  - `naive_pipeline` — the offline reference pipeline and its search ranking
  - `profiler`, `order_stats`, `metadata` — stage profiles, multi-run
    percentile statistics and stage metadata
  - `metrics` — architecture-specific metric weights
  - `reporter`, `report_view`, `text`, `bindings` — duration status, report
    judgements, number rendering and name parsing
- `app/` — the command line, TOML/JSON handling, terminal tables and the
  Python bindings (ordinary Rust around the library)
- `tests/` — tests of the library

## Units

Fractions are fixed-point integers in basis points (`10_000` is `1.0`), costs
are billionths of a US dollar, health scores are whole points from 0 to 100.
`app/` converts to and from floating-point numbers at its edges.
