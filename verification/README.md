# x_sec

A modular security scanning toolkit whose core is verified with Verus.

- `src/` is the verified library. It holds the scan targets, findings,
  results and module configuration, and the port scanner's decisions: which
  ports to probe, in which batches, which host names to accept, and how the
  outcome of each probe becomes a finding. Each public function's contract
  states its result exactly. The few calls that Verus cannot read (the clock
  and Unicode's alphanumeric test) sit behind wrappers whose contracts say
  what the outside code does.
- `app/` is the command-line program around it: argument parsing, the TCP
  probes, logging and the SQLite scan history.
- `tests/` runs the library on concrete values.

Run `x-sec list-modules`, `x-sec scan --module port_scanner --target HOST
[--port PORT]` or `x-sec history`.
