# team_workflow

Teams of agents that a leader agent orchestrates. The leader analyzes a task and answers with an
orchestration plan; the plan's workers are created with registered models, connected and run, and
the outputs of the plan's output agents are the result.

- `src/` is the library, verified with Verus. It holds the registry of models, the leader's prompt,
  the plan and the course of an execution, from the task to the answers. `src/laws.rs` states what
  holds of them as a whole.
- `app/` runs executions on a host that talks to models, builds agents and runs the workflow graph.
  It reads plans from JSON.
- `tests/` exercises the library.

What the library takes on trust stands in `src/maps.rs` (the maps of the `dashmap` crate) and in
`src/text.rs` (how `Debug` quotes a string).
