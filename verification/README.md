# kubefront-core

The Kubernetes logic of KubeFront, a desktop viewer for K3S and Kubernetes
clusters, written in Verus. The library's functions carry contracts that
Verus proves; the few small wrappers around chrono, kube and std calls at its
edge (reading the system clock, parsing and comparing timestamps, the client's error status and text,
lower-casing, path joins, lossy UTF-8 decoding) are trusted: their contracts
are believed, not proved, and each one's doc comment says what it claims.

- `src/` — the verified library: the DTOs shared by the desktop and the
  backend, error classification and its HTTP mapping, resource kinds and the
  decision behind each operation (list, get, delete, restart, edit, describe),
  the `kubectl`-style table projections and pod description, kubeconfig
  contexts and the K3S heuristic, settings and the kubeconfig registry, the
  desktop session's decisions, the backend configuration and request rules,
  the remote transport's framing, the pod log stream protocol, the terminal banner
  and the open terminals' ids, the text order and key-ordered string maps, the
  desktop window's reactions to connect results, log events and toolbar loads,
  the cache that keeps each backend connection's client, the log viewers' rules
  and the Azure CLI orchestration messages.
- `app/` — `kubefront-backend`, the REST server that fronts clusters behind a
  reverse proxy: configuration loading, the axum routes, the connection pool
  and the calls to the Kubernetes API, all delegating their decisions to the
  library.
- `tests/` — tests of the library on concrete values.
