# darknode

The decision logic of a peer-to-peer node and of its Solana bridge, verified
with [Verus](https://github.com/verus-lang/verus).

| module | what it decides |
| --- | --- |
| `net::connect_loop` | the course of one manual outbound connection, step by step |
| `net::connect_laws` | what holds of every such course |
| `net::manual_session` | the connections of a session, and what ending it stops |
| `service::sol` | which accounts are watched, what a notification calls for, transfers |
| `service::transfer` | the transaction that moves lamports |
| `service::keys` | key pairs, public keys and secret keys, and how they are stored |
| `service::base58` | bytes as base58 text |
| `service::json`, `service::jsonrpc` | reading JSON values, requests and messages |
| `service::failed` | what can go wrong at the bridge |
| `map` | what the network map shows, and the nodes on it |
| `text` | numbers as text |

`src/` opens no socket and waits for nothing. It answers with actions and
requests; `app/` performs them on executors, channels and sockets, and hands
back what happened. `tests/` runs the library on concrete values.

What the proofs take for granted of other crates stands in `src/` beside the
calls: every function marked `external_body`, every `assume_specification`, and
every spec function without a body says which function of which crate it speaks
of.
