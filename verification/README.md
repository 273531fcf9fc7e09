# retry

Retry policies with fixed or exponential backoff, verified with Verus.

* `src/` is the verified library. A `RetryPolicy` starts a run (`retry_if`, `collect`,
  `collect_and_retry`); a run hands out the future to await, takes what came of it, and says in a
  `Step` whether to finish or to pause and go on. `backoff_laws`, `retry_laws`, `collect_laws` and
  `collect_and_retry_laws` state what holds of runs as a whole, and `equivalence_laws` when a run
  of one kind is a run of another. `tracing_init` decides how a tracing subscriber is set up.
* `app/` awaits the futures and pauses, computes with floating-point numbers, draws random ones,
  and installs the tracing subscriber.
* `tests/` runs the library on concrete values.

The library carries a floating-point number as a `Factor`, by its bit pattern, and takes the
operations on it as closures in a `FloatOps`. Nothing in it is assumed without proof.
