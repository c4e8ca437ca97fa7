# plato_threshold

Adaptive and static thresholds for tile data.

- `src/` is the verified library: the integer decisions behind the
  thresholds, each with its contract and the laws that tie them together.
  - `adaptive`: warm-up, the confidence of a check as an exact ratio, and
    which offered samples enter the history.
  - `smoothing`: the window that each point of a moving average covers.
  - `percentile`: the two ranks a percentile interpolates between.
- `app/` is the program: the `f64` types (`ThresholdRange`,
  `StaticThreshold`, `AdaptiveThreshold`, ...) and their floating-point
  statistics, which call the library for every decision above, plus a demo.
- `tests/` exercises the library on concrete values.
