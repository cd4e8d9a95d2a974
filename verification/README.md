# crankshaft_plugin

The shared vocabulary of a subprocess plugin system for a workflow engine,
written in Verus.

- `src/` — the verified library: job ids, execution steps and the
  float-free core of a job (`job`), the conversion of an engine task into
  a job (`task`), job
  states (`status`), plugin errors (`error`), host errors (`host_error`),
  host configuration (`config`), the JSON-RPC envelope (`protocol`,
  `method`), the host's decisions on a reply (`rpc`: correlating a
  response with its request, decoding a wire error object), and the
  decimal renderings that messages are built from (`text`).
- `app/` — ordinary Rust around it: serde forms of the library's types,
  the job with its floating-point resource requests beside its verified core, the
  plugin-author trait, the plugin subprocess, and the async JSON-RPC/TCP
  client.
- `tests/` — tests of the library.
