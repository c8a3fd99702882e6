# tinymemory

The decision logic of the TinyMemory layer as a Verus-verified library, with
the process glue that cannot be verified kept apart.

- `src/` — the verified library. Each module states its behaviour in
  `requires`/`ensures` contracts over spec functions, and the library's laws
  (round trips, idempotence, once-only latches, per-connection guards) are
  public proof functions beside the code they speak of.
- `tests/` — executable tests of the library, run with the real `sha2` and
  `reqwest` crates linked.
- `app/` — ordinary Rust around the library: process-wide slots, serde wire
  forms, the caps migration over JSON, the Ollama and GitHub HTTP round trips.
