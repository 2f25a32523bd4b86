# battlement_flatbuffers

Verified readers, validators and storage accounting for Battlement's
size-prefixed FlatBuffers transport messages.

- `src/` is the library, written in Verus. Every reader takes the finished
  bytes, the schema's four-byte file identifier, and the tables that the
  FlatBuffers verifier decoded from those bytes (or the verifier's failure
  text). It checks the framing (size limit, size prefix, identifier), then the
  protocol rules, and states in its contract exactly which failure text comes
  back for which input. Binary64 and binary32 wire values are carried as bit
  patterns; the rules only ask whether a value is finite, zero, or on one side
  of zero.
  - `framing`, `error`, `limits`, `uuid`, `names`, `float_bits`: shared pieces.
  - `connect`, `host_settings`: connect requests and host capability
    observations.
  - `core_client`: built-in input actions, batch completions and failures.
  - `geometry`, `motion`: geometry observation batches and Motion event
    batches carried by core actions.
  - `response`, `command_kinds`: responses, their batches, commands and
    snapshots.
  - `material`, `audio`, `native`: material parameters, audio buses, and the
    plain values of direct message construction.
  - `message_writer`: the per-thread pool of released transport storage,
    builder counters, and the argument checks of the message writers.
  - `finished`: one finished message and its retained allocation.
- `app/` is the ordinary Rust around it: the flatc-generated schema modules,
  decoding of verified FlatBuffers into the library's tables, builders, and
  process-wide counters.
- `tests/` exercises the library on concrete values.
