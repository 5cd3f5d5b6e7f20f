# mcp_compressor_core

The decision core of an MCP tool compressor, verified with Verus.

The compressor stands between MCP clients and MCP servers. It connects backends,
offers their tools in compressed form, and serves tool calls within the process or
over an HTTP bridge. This crate holds what it decides on the way:

- `paths`: where generated command-line scripts are installed
- `sdk`: server definitions of SDK callers and their normal form
- `tool`: tools and the filters on them
- `backend`, `connect`: backends, their child processes and deadlines, and the
  discovery of what they offer
- `http_backend`, `oauth`: remote backends, and the login to them
- `proxy`: the HTTP bridge, and the backend call that a request becomes
- `session`: sessions of SDK callers
- `error`, `timeout`, `text`: errors and their messages, spans of time, and text
- `outside`: what is taken on trust from other crates and from the standard library

`app/` is ordinary Rust around the library. It owns processes, sockets, timers, files
and the environment, performs what the library asks for, and hands back what came of
it. `tests/` runs the library on concrete values.
