# llmfit_core (optimization)

Arm-aware selection of LLM configurations, verified with Verus.

- `src/domain.rs` — the machine, benchmark and fit facts the optimizer reads,
  with their mathematical views. Throughput and scores are held in
  hundredths, memory in tenths of a gigabyte.
- `src/optimization.rs` — classification of runtime state and validation,
  the ranking key, candidate construction, ranking and selection
  (`optimize_for_system`), and the explanation texts.
- `src/ranking.rs` — stable ranking by a lexicographic key, with the proof
  that the ranking exists and is unique.
- `src/text.rs` — decimal rendering of integers and fixed-point quantities.
- `src/laws.rs` — properties proved of every input.
- `app/lib.rs` — serializable copies of the types (serde), converting
  fixed-point quantities to and from floating point.
