# aur_build

An AUR build server and its command-line client. The server keeps a list of
packages to build, hands build jobs to connected workers over websockets,
receives the built files and logs, adds the packages to a pacman repository
and serves it. The client manages packages, patches, workers and connection
profiles through the server's HTTP API.

## Layout

- `src/` is the library, verified with Verus:
  - `common/`: the models, payloads, responses and websocket messages shared
    by server and client.
  - `server/`: the package store (with its laws in `store_laws.rs`), the
    worker pool, the orchestrator's dispatch decisions and build-output
    bookkeeping (laws in `laws.rs`), configuration merging, the request
    rules of the HTTP API, multipart upload grouping, repository argument
    building, and the per-package state kept between runs (`state.rs`).
  - `cli/`: argument and profile handling, package lookup, status counts.
  - `standalone.rs`: the configuration and key check of the single-process
    server.
- `tests/` runs the library on concrete values.
- `app/` is the unverified shell: `main`-style entry points, the actix-web
  routes, websocket tasks, the SQLite mirror of the store (diesel), calls
  to `gpg` and `repo-add`, webhooks (reqwest), file I/O and printing.

The trusted items are, in `server::clock`, the declaration of
`std::time::SystemTime` and the wrappers `system_time_now` and
`seconds_since_epoch`, which read the system clock (the verified
`current_timestamp` builds the Unix timestamp from them), and `server::multipart::utf8_lossy`, which decodes bytes through
`String::from_utf8_lossy` (its result is named `lossy_utf8`).
