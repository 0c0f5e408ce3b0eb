# femtoclaw_bench

The FemtoClaw benchmark suite, with its core verified in Verus.

- `src/` is the verified library: the strict protocol validator
  (`protocol`, over the JSON model in `json`), the preset planner, the bounded
  short-term memory and the resident-set bookkeeping of the portable
  benchmarks (`benchmarks::portable`), text helpers (`text`) and the timing
  loop (`util::bench_iters`).
- `app/` is the `femtoclaw-bench` command: argument handling, the benchmark
  runners that time the library and report floating-point metrics, process
  spawning for the startup benchmark, resident-set sampling and JSON output.
- `tests/` exercises the library on concrete inputs.
