# jobless

The core of the Jobless desktop client, verified with Verus: its
configuration and paths, the secret store, the SQLite database and its
migrations, the `Content-Length` framing and routing of the JSON-RPC protocol
spoken with the Bun browser worker, and the decisions taken while starting,
using and stopping that worker.

- `src/` is the verified library. Each module states its behaviour in
  `requires`/`ensures` contracts over `Seq`, `Map` and views of its types;
  calls into `std`, `directories`, `keyring`, `secrecy`, `zeroize` and
  `rusqlite` go through small trusted wrappers whose doc comments say what
  is assumed of them.
- `tests/` exercises the library on concrete values.
- `app/` is the program around it: process spawning, threads and channels,
  file and environment access, TOML and JSON (de)serialisation.
