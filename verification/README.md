# Tessera Model Gate

Tessera Model Gate compares language models on approved business tasks,
blocks a model that does not meet a task's quality gate, and keeps the
evidence for each decision.

The decision logic is a Verus library whose functions carry `requires` /
`ensures` contracts proved by Verus:

- `domain`: catalogs, run records and the quality gate (`evaluate_gate`).
- `config`: the consistency rules of the benchmark and model catalogs.
- `approvals`: the counter-signed ledger of live approvals.
- `auth`: roles, tokens and the access decision for each route.
- `champions`: the champion model of each task class.
- `grader`: the deterministic graders, over `text`, `lines` and `json`.
- `provider`: the endpoint, the reply's answer and the demo answers.
- `run`: request validation, the order of attempts, the evidence record of
  an attempt and regression flags.
- `review`: human scores and how stored evidence is read back.
- `crypto`: sealing the ledger's payloads with AES-256-GCM.
- `service`: the presented token, the rate window and the session report.

Public proof functions named `law_*` state properties that span several
functions, such as that a demo run never becomes eligible or that opening a
sealed payload gives it back.

`app/` is the service around the library: command line, YAML and JSON
forms of the records, the SQLite ledger, HTTP handlers and model calls.
