# thurkube

A Kubernetes controller that runs coding agents as batch workloads.
An `AgentJob` names its building blocks (runtime, auth, role, skill, MCP
servers, repositories, cluster access) in its namespace; the controller
fetches them, renders the agent configuration into a ConfigMap and applies
a Job or CronJob, with a PVC and cluster RBAC when asked for.

The decisions of the controller are written in Verus and proved against
their contracts; the runtime around them is ordinary Rust.

## Layout

- `src/` — the verified library.
  - `crd/` — the eight custom resources, their defaults and the
    CustomResourceDefinitions they are served under.
  - `k8s/` — the parts of the Kubernetes object model the controller reads
    and writes.
  - `controller/builders.rs` — the child objects of an AgentJob (names,
    labels, owner references, ConfigMap, PVC, RBAC, pod template, Job,
    CronJob) and the configuration hash.
  - `controller/clock.rs` — the current time as RFC 3339 text.
  - `controller/status.rs` — the status written after a reconcile, the
    Ready condition, and when a write can be skipped.
  - `controller/finalizer.rs` — holding and releasing the finalizer.
  - `controller/resolve.rs` — the references of an AgentJob and how the
    fetched ones are gathered.
  - `controller/agentjob.rs` — the plan of a reconcile: children, status
    and event.
  - `controller/reconcile.rs` — the reconcile as a state machine: each
    step takes what came of the last request to the cluster and says what
    to ask for next; proof functions state what every run does.
  - `health.rs` — the answers of the health endpoints.
- `app/` — the binary: command line, logging, the Kubernetes client that
  performs the requests of the state machine, JSON rendering, and the
  health server.
- `tests/` — tests of the library on concrete values.

## Trusted code

Three calls are believed rather than proved: the SHA-256 digest (from
`sha2`) that the configuration hash is taken from, the reading of the
system clock (from `std::time`), and the RFC 3339 text of a time (from
`chrono`), written into conditions and run times. The reconcile step reads
the clock once; `step_at` takes the reading as an argument and is exact
for every reading, including none.
