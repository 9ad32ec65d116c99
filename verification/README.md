# autoloop

A governed agent runtime with its decision logic verified by Verus.

- `src/` is the verified library: the workflow state machine, session memory,
  prompt normalization and tiered model routing, the provider registry and
  prompt cache, the runtime guard, circuit breakers, budget precharge,
  settlement and reconciliation, degrade and recovery planning, sandbox checks,
  replay comparison, identity validation, the verifier's judgements, the
  knowledge export plan, key index and live focus anchors, the time order of replay analyses, and, as step functions from stage and
  event to next stage and action, the sequencing of a governed execution, of a
  user message and of a cached chat. Each public function states its result exactly in its
  contract; the `law_*` proof functions state the properties that span calls.
- `app/` is the I/O edge: the TOML configuration file, the clock, the
  OpenAI-compatible HTTP provider and the async provider hub, shared session
  memory, sandboxed process execution, the floating-point verifier scores, and
  the drivers that run the step functions (execution, message, replay,
  knowledge export) against the embedding application's stores and tools.
- `tests/` exercises the library on concrete scenarios.
