# metaheuristics

Population-based optimisers (particle swarm optimisation and social group
optimisation) and the CEC 2019 benchmark problems.

- `src/` is the verified library: tuning parameters, algorithm names and
  statuses, the bounding decision of each strategy, the bookkeeping of a run
  (`progress`: status, iteration and evaluation counters, with the laws on
  run length and evaluation counts), index work on row-major populations and
  partner draws (`population`), and the descriptions of the CEC 2019
  functions (`benchmarks::cec2019`).
- `app/` holds the optimisers proper, which move `f64` populations with
  `ndarray` and `rand`, the problem interface, and the CEC 2019 evaluation
  through the suite's C code.
- `tests/` exercises the library.
