# unica_coder

The tool layer of the Unica MCP server for 1C:Enterprise, verified with Verus.

`src/` is the verified library:

- `catalog`, `descriptors`: every public tool with its handler and cache
  access, and every native XML/DSL operation's descriptor and path aliases.
- `pipeline`: one tool call as a state machine from argument normalization to
  cache invalidation; `application` starts a call by tool name.
- `guards`, `events`, `diagnostics`: the runtime XML route and source sync
  guards, the cache events of an outcome, and runtime diagnostics.
- `native`: the route of one native operation call and the file inputs of
  each mutator; `project`: the project status and map outcomes.
- `inflight`: bounded admission of concurrent tool calls.
- `laws`: what holds of every tool call and of the catalog as a whole.
- `json`, `text`, `domain`: the values these work on.

`app/` runs the state machines against the workspace and the operation
families through ports, bridges JSON to `serde_json`, and serves the tools
over stdio with `rmcp`.
