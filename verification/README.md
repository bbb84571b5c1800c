# bevy_eventwork (verified core)

The bookkeeping of a Bevy networking layer, with contracts proved by Verus:

- `src/connection.rs`: connection ids and their display text, packets, events, errors.
- `src/serialize.rs`: serialized message bodies and the binary framing check.
- `src/channel.rs`: the `async_channel` endpoints the library uses (trusted items).
- `src/tables.rs`: the two `dashmap::DashMap` tables and what each method does to them (trusted items).
- `src/managers.rs`: the network state (connections, message queues per kind, listening,
  id counters), its operations and their laws.
- `src/managers/network.rs`: sending a message to its targets, and decoding received messages.
- `src/managers/network_request.rs`: request ids, awaited responses, and answering requests.

`app/` wires the library into Bevy: resources, events, systems, observers, async tasks,
and the bincode codecs. `tests/` exercises the library on concrete values.
