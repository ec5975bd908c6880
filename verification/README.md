# pullpiri

Verified core of the Pullpiri workload tooling, written in Verus.

- `src/` — the library, verified by Verus:
  - `binary` — `kind: Binary` artifacts and restart policies;
  - `yaml` — a YAML document tree and its lookups;
  - `workload` — restart configuration, string lists and pod start specifications;
  - `lifecycle` — requests to the binary lifecycle service and the reading of its replies;
  - `error` — workload errors and their messages;
  - `resource_manager` — request and response mapping of the resource manager;
  - `settings` — addresses, delete routing, file sources and the health check of the CLI;
  - `text` — character-level string helpers;
  - `laws` — properties that hold across functions.
- `tests/` — tests of the library.
- `app/` — the `settingscli` program and the gRPC/HTTP/YAML plumbing around the library.
