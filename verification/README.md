# tls_tunnel

A reverse-proxy tunnel over TLS, HTTP/2 or WebSocket: clients publish local
services on a server, reach each other's services through it (visitors), and
run local HTTP and SOCKS5 proxies (forwarders) that route targets directly or
through the server.

## Layout

- `src/` is the library, verified with Verus. It holds the rules of the
  tunnel and proves them: configuration and its validation, the control
  protocol's messages and the byte frames of streams, the server's and the
  client's session state machines and proxy registry, connection pools,
  counters and the statistics pages, HTTP and SOCKS5 parsing, routing and
  target checks of forwarders, and the texts that the commands write.
  Calls into other crates (`serde_json`, `url`, `uuid`, `rcgen`) stand behind
  small trusted items whose contracts are documented where they are declared.
- `app/` is the program around it: the command line, files, sockets, TLS,
  multiplexing, timers and the event loops that perform what the library
  decides.
- `tests/` runs the library on concrete values.
