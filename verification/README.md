# chrome_runtime

The runtime of a Chrome native messaging host. A browser extension asks it, in
JSON-RPC, for a local app server for each of its side panels, for files that it
can fill with what a tab shows, and to open local files.

The library in `src/` holds every decision of the runtime, verified with Verus.
It does no I/O of its own: a request leads to a `Step`, the step is carried out
elsewhere, and its outcome is handed back to the method that is named after it,
which gives the next step, until there is a reply.

| Modules | What they hold |
| --- | --- |
| `json`, `json_text`, `decode`, `params`, `error` | JSON values, records in them, and how replies are framed |
| `text`, `fields`, `paths`, `encode`, `table` | texts, paths, digests, and values under names |
| `manifest`, `selection`, `files`, `config` | installations: which one serves a caller, whether it can be trusted, what is told of it |
| `admission`, `connection`, `endpoint` | the proxy: who is let in, what happens to a connection, where it listens |
| `assets`, `process`, `roots` | tab context assets, app servers, and where they are kept |
| `steps`, `manager`, `requests`, `proxying`, `serving` | the runtime itself, step by step |
| `laws` | what holds of the runtime as a whole |

`app/` carries the steps out on a Linux system: files, processes, sockets,
threads and WebSockets. `tests/` runs the library against outcomes that the
tests make up.
