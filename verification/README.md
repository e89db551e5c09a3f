# Sentinella Hub Kubernetes Agent

An agent that reports the inventory of a Kubernetes or OpenShift cluster to the Sentinella Hub and
carries out the Hub's commands. What the agent decides and computes is written in Verus, and proved
to do what its contracts say.

## Layout

- `src/` is the verified library `sentinella_agent`. It does no I/O: it takes plain values and
  returns plain values.
- `app/` is the program around it: it talks to the Kubernetes API, the Hub, Tetragon and
  PostgreSQL, and hands what it gets to the library.
- `tests/` runs the library on concrete values.

## The library

| Modules | What they hold |
|---|---|
| `config`, `runtime` | settings, command line, warnings, the snapshot as a whole |
| `model`, `objects` | what is reported, and the objects of the cluster that it is made from |
| `collector`, `cluster`, `pods`, `network`, `security`, `storage`, `configuration`, `events`, `maturity` | from objects to inventory |
| `dependency`, `tetragon` | connections between pods and services, from kernel events |
| `tech`, `plugins` | technology detection, workload and PostgreSQL monitoring |
| `command`, `action`, `resize`, `rollout`, `scale`, `drain`, `update`, `preflight`, `workload`, `resource_yaml` | the commands, as state machines that ask for one call at a time |
| `policy`, `operator`, `lifecycle` | action policies, the role bindings that follow from them, the operator's own workload |
| `hub`, `health`, `leader`, `failure` | the Hub's replies, probes, leader election, failures of the API |
| `quantity`, `text`, `order`, `pairs`, `views`, `json`, `json_value`, `clock` | amounts, texts, sorting, documents, time |

Each type has a view, and each function says over views what it returns. A command that needs
several calls to the cluster is a state and a step function: a step takes the answer to the last
call and gives the next call, or the result. What holds of a module as a whole stands at its end as
proof functions: that a preview changes nothing, that secrets are never shown, that no pod is
evicted before its node is closed.

What the library takes from other crates goes through a few functions whose contracts are believed,
not proved; they are in `json_value`, `clock`, `text` and `config`, and each says what it claims.
