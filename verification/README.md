# tmux-agent-sidebar adapters, verified

The Pi and Smelt adapters of the sidebar, which turn an agent's hook
payloads into the sidebar's agent-neutral events, written in Verus.

- `src/json.rs`: the JSON document the adapters read, with its mathematical
  value; objects keep insertion order and never repeat a key.
- `src/text.rs`: string equality by characters.
- `src/tool_name.rs`: the shared tool vocabulary.
- `src/event.rs`: the events and the adapter interface.
- `src/adapter/`: what both adapters share (payload readers, argument key
  rewriting, lifecycle events) and one module per agent, each with its tool
  vocabulary and its laws.
- `app/lib.rs`: the conversion between `serde_json` values and the
  library's documents, and entry points that take `serde_json` payloads.
