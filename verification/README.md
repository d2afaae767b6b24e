# airnomads

HTTP/3 requests and realtime channels over QUIC.

- `src/` is the library, verified with Verus. It holds what a server and a client decide and
  compute: how requests and answers are written and read, how messages travel in frames, who
  is a member of which channel, and what is to be done next when something happens. The last
  is written as `step` functions from a state and an event to the next state and an action.
- `tests/` runs the library on concrete values.
- `app/` is ordinary Rust around it: the server and the client on tokio and quiche, which own
  the sockets and the QUIC connections, perform the actions and hand back the events.

| module | what it holds |
| --- | --- |
| `text` | decimal numbers and UTF-8 in header fields |
| `http` | header fields and the events of an HTTP/3 connection |
| `json` | JSON values and how they are written |
| `error` | what can go wrong |
| `config` | the settings of a connection and the QUIC configuration made of them |
| `transport` | packets and connection identifiers |
| `directory` | a map from names to values whose names can be listed |
| `listener` | the loop of the server |
| `server` | requests put together, answers written out |
| `client` | the handshake, requests written out, answers put together |
| `realtime` | frames, messages, channels and the streams they travel on |

Public proof functions named `law_..` state what holds of several functions together.

The library calls quiche, ring and serde_json through items whose contracts are trusted; a doc
comment above each says which function it stands for. quiche is taken without its bundled TLS
library, so a program that opens connections has to be linked with BoringSSL.
