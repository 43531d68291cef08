# clightning-plugin-api

A typed API for writing c-lightning plugins, with its core proved correct
with Verus.

- `src/` is the verified library:
  - `plugin.rs`: the registry of RPC methods and event subscriptions with
    their handlers (`PluginCore`), the plugin's life cycle (`Starting`, then `Initialized`
    by lightningd's `init`), the routing of requests (`route`), and the
    preparation of RPC calls and event deliveries, with the JSON-RPC errors
    the plugin answers when it refuses them;
  - `types.rs`: errors, results, log messages, events and manifest metadata;
  - `framing.rs`: how the lines on the plugin's input are cut into requests;
  - `text.rs`: whitespace and string equality;
  - `lightningd.rs`: the lightningd RPC client (from `clightningrpc`);
  - `laws.rs`: laws that relate the operations to each other.
- `app/` is the runtime around it: the `Plugin` builder that users mount
  their methods and handlers on, JSON (de)serialization with serde, and the
  loop that talks to lightningd over stdin and stdout.
- `tests/` exercises the library.
