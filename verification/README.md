# rust_proxy

A TCP proxy: it accepts client connections, forwards each to an upstream
server in both directions, bounds the number of connections served at once,
and on Ctrl+C stops accepting and waits a bounded time for open connections.

- `src/` is the verified library: the settings types, the connection limiter
  (over tokio's semaphore), the answer of the accept loop to each event, and the
  shutdown drain with its deadline arithmetic and laws.
- `app/` is the program around it: command line, logging, reading the settings,
  the async accept loop and the byte forwarding.
- `tests/` exercises the library on concrete values.
