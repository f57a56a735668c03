# data_pipe

A WebSocket data pipe: clients connect with a `clientId` query parameter,
subscribe to (topic, group) pairs and exchange JSON-encoded messages.

- `src/` is the verified library: the client registry (`data::clients_manager`)
  with its subscription bookkeeping and laws, the message model and its
  MessagePack subscription payloads (`data::messaging`), query-parameter
  parsing and random test messages (`common::utils`), configuration, error
  texts, and the decisions of the WebSocket and echo services (`services`).
  Calls into tokio, rand, uuid, xxhash-rust and rmp-serde stand behind small
  trusted wrappers whose contracts say what those crates guarantee.
- `app/` runs the server: the async tasks, locks, sockets (sockudo-ws), JSON
  (serde_json) and logging.
- `tests/` exercises the library on concrete values.
