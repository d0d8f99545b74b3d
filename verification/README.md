# yaak_app

The logic of the Yaak desktop application as a verified library, and the application around it.

`src/` holds the library. Every function of it has a contract that Verus checks.

- `import`, `keys`, `key_map`, `merge`: imports of workspaces. Ids are asked about and replaced,
  folders and requests are found again by the names on the way to them, and an import is merged
  into what a workspace already holds.
- `grpc`, `grpc_session`, `grpc_run`, `grpc_channel`: gRPC calls. A session decides what comes
  next and what is recorded; `grpc_run` states what holds over any course that a session takes.
- `http`, `http_send`: HTTP responses, and the course of sending a request.
- `deep_link`: links that other programs open the application with.
- `plugins`, `window`, `sse`, `toast`, `uri`: smaller decisions.
- `models`, `text`, `error`: what the others share.

The parts that wait for the outside world are written as state machines: a step takes what came of
the last action and gives the next ones. `app/` carries the actions out. It needs the Tauri shell,
the `yaak_*` crates of the desktop workspace, and the desktop's own modules `commands`, `dns`,
`encoding`, `error`, `grpc`, `history`, `http_request`, `notifications`, `plugin_events`, `render`,
`updates`, `window` and `window_menu`, none of which are kept here.

The library trusts three contracts, all in `deep_link`: what the `url` crate finds in the text of a
URL, and how `std` shows a text that may be absent. Each says that the argument decides the result;
the last one also says that an absent text reads `None`.
