# lsp_service

The protocol core of a language server, verified with Verus.

- `src/jsonrpc/` decides which messages reach their handlers and what the others
  are answered; `session.rs` states what holds over a whole session.
- `src/client.rs` writes and numbers the messages for the language client, and
  holds back those that need an initialized server.
- `src/macros/` expands the `rpc` attribute of a server trait into the function
  that registers the methods of the trait.
- `src/json.rs`, `src/lsp.rs`, `src/macros/syntax.rs` and `src/macros/tokens.rs` hold
  the trusted items: the calls into `serde_json`, `lsp_types`, `syn`, `proc_macro2` and
  `quote`, each with the contract that is believed of it.
- `app/` is the plumbing: channels, futures, shared state, and serialization.
