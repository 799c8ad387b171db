# Perry Builder (Windows)

Build worker for the Perry ecosystem, targeting Windows. It connects to a hub
over a WebSocket, takes build jobs, and answers each with signed executables,
installers or archives.

- `src/` is the library. It decides: what a job's manifest may hold, what goes
  into an executable, an icon, an installer or an archive, which tool is run
  with which arguments, what comes of it, and what is said to the hub. Every
  function there is verified with Verus against its contract.
- `app/` is the program. It reads files, runs tools and talks to the hub, and
  asks the library what to do next.
- `tests/` run the library.

## The library

| Module | What it holds |
|---|---|
| `queue::job` | manifests and credentials |
| `build::validate` | the rules for manifest fields, and escaping for XML and NSIS |
| `build::assets` | icons |
| `build::compiler`, `build::docker` | the compiler, on the host or in a container |
| `build::pipeline`, `build::guarantees` | a build, step by step, and what holds of every build |
| `package` | application manifests, version information, resources, DLLs, installers, MSIX packages, archives |
| `signing` | signing with a certificate, Azure Trusted Signing or Google Cloud KMS |
| `worker` | a connection to the hub, and what holds of every connection |
| `config`, `azure`, `publish` | configuration, and services around the worker |
| `text`, `version`, `bytes`, `paths`, `process`, `encoding` | what the rest is written with |

What an outside crate computes is called through small functions whose
contracts are trusted; each says in its comment what it claims.
