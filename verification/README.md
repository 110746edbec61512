# scoped_spawn

Structured concurrency for asynchronous tasks: every task runs within a scope
made by its parent, and no task outlives its parent.

- `src/` is the verified library. `registry` is the table of live children of
  a scope (fresh, never reused ids); `remote_scope` registers children with
  their parent's tables and cancels and collects them when a task ends;
  `remote_scope::termination` is the termination protocol of a task as a state
  machine, with proofs that every run follows the protocol (future dropped,
  children cancelled and awaited, `done` run, parent told last), and that a
  task dropped early cancels its children and never tells its parent while a
  child may still run (its done signal is parked with its scope's table).
  Channel ends carry ghost labels, so the contracts say which end of which
  channel went into which table and which to the child.
- `app/` is the runtime around it: the tables shared between tasks behind a
  mutex, channel-backed signal types, the future that runs a task through its
  termination, and a spawner on top of any `futures::task::Spawn` executor.
- `tests/` exercises the library on concrete values.
