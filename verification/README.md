# optionclaw

A command-line assistant for paper and gated live trading of long option
contracts. Its risk gate, configuration checks, command-line parser, report
formats and the step-by-step decisions of `paper run-once`, `live check` and
`live submit` are written in Verus and proved against their contracts. The
program around them reads and writes files, parses JSON and TOML, talks to the
broker, reads the clock and prints; what it does with those results is decided
by the library.

## Layout

- `src/` — the verified library.
  - `domain/` — instruments, prices, accounts, order intents, signals and the
    risk gate (`evaluate_order_intent`), with its fail-closed laws.
  - `config.rs` — configuration, the live-trading contract and the FNV-1a
    configuration hash that approvals are tied to.
  - `cli.rs` — the argument parser, stated exactly by `spec_parse`.
  - `services/` — the steps of each command as functions from plain values to
    plain values, and three state machines (`paper_flow`, `live_check_flow`,
    `live_flow`) that decide what the program does next; the live-submit one
    submits at most once and only after every gate has passed. `signals`
    says which metrics and log records each outcome produces.
  - `persistence/` — data-directory layout, schema and state checks, audit
    events and the line framing of the audit log.
  - `secrets/`, `observability/`, `alpaca.rs`, `output.rs` — redaction, secret
    stores, metrics and logging, broker request and response mapping, and the
    report lines the program prints.
- `tests/` — tests of the library on concrete values.
- `app/` — the program: file and network I/O, JSON and TOML parsing, the HTTP
  client, and the loops that run the state machines.

## Collections

Three maps keyed by text are held as vectors whose contents the contracts
describe exactly:

- a metric event's labels are a `Vec` of key–value pairs kept sorted by key
  (a type invariant), so its key text is the same as a sorted map would give;
- a metric snapshot and registry are a `Vec` of key–count pairs; a read gives
  the count under a key, and recording an event adds one under its key and
  leaves every other key's count as it was;
- the in-memory secret store is a `Vec` of name–value pairs in which a read
  returns the value last written under that name.

With `String` keys, Verus states nothing useful about `HashMap` or
`BTreeMap` lookups, and the `Mutex` that shared the secret store cannot be
verified, so the library keeps the contents in a form whose every read and
write it can prove. Sharing a registry or a store between threads is left to
the program in `app/`.
