# nat_greeter

A greeting service over HTTP/3 whose server stands behind a NAT, and two clients
that call it.

- `src/` is the verified library: what the programs compute and decide. Each of
  their tasks is a state machine from event to next state and action, with laws
  over all of its runs.
  - `addr`, `connection`: socket addresses and what a connection reports.
  - `greeter`: the service itself.
  - `target`: the server that a client calls, as a URI.
  - `quic`, `setup`: the configuration of QUIC and the course of setting it up.
  - `client_task`, `server_task`: what is done for each connection.
  - `supervisor`, `proxy_watch`: the tasks that start and feed those.
  - `program`: the course of each program.
  - `trace`: runs of a state machine.
- `app/` performs the actions: QUIC, gRPC, files, the command line. The client
  with a public address reads `certs/client.crt`, `certs/client.key` and
  `certs/ca.crt`, the server `cert.pem` and `key.pem`, from the working
  directory; the plain client reads no file.
- `tests/` runs the library on concrete values.
