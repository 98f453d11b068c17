# ton_core

The core of a TON wallet service: which messages are pending, when one may be
sent, what is reported of its fate, and what is passed on of the transactions
that arrive. The library makes these decisions, and each of its functions is
verified with Verus. It calls no service: an operation that needs the network
is cut there, and the next function takes what came of the call.

- `src/engine.rs`: the core's state, its start, sending, delivery and expiry
- `src/start.rs`: the phases of a start
- `src/pending.rs`: the table of pending messages
- `src/listener.rs`: the loop of a task that serves a channel
- `src/observer.rs`: what is passed on of a transaction that was seen
- `src/controllers.rs`: how the address endpoints answer
- `src/models.rs`, `src/message.rs`, `src/error.rs`, `src/uint256.rs`: the values
- `src/laws.rs`: what holds over several operations
- `app/`: the program around the library
