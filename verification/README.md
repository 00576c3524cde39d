# monty_guardrails

The guardrails around a sandboxed Python interpreter and its worker pool, as a
verified library with a thin host layer around it.

- `src/` is the library. Every function in it is verified by Verus against its
  contract. Calls into other crates (HMAC-SHA256, OS randomness, JSON text) and
  into the standard library's clock and formatting are the only trusted items;
  each says in its doc comment what is believed of it.
- `app/` is ordinary Rust around it: logfire spans and meters, the global
  allocator, kernel limits, serialized forms, the training run.
- `tests/` runs the library.

## What is guaranteed

- A session never goes past its allocation or memory limit, a refused charge
  changes nothing, and an exceeded time limit is noticed within ten checks.
- Results whose size follows from the sizes of their inputs are refused before
  they are built.
- Sandboxed code can catch recursion errors and no other resource error.
- A worker's memory ceiling is five times the session's budget plus the worker's
  baseline and fixed headroom; it never ratchets up. This is proved of
  `MemoryMeter`; the allocator in `app/` keeps the same counts in atomics and
  shares the functions that decide.
- Only bytes signed with the same key verify, and they verify to exactly the
  state that was signed.
- Spans open and close in step with the protocol, and nothing is closed twice.
  Code, output, text and byte values, answers and error texts are capped in
  their attributes, and a record says so when anything was cut off. What the
  interpreter's serializers write (containers, inputs, arguments) arrives capped
  by them, with their own flag.
- Names sandboxed code makes up reach no metric attribute unless the host
  resolved them. Once a load was answered, what the restored session had used
  before counts toward no later run.

The functions named `law_*` state these precisely.
