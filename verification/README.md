# silence

The request handling of Silence's admin API, verified with Verus.

- `src/pipeline.rs`: HTTP methods, request parameters (a map from names to
  values) and request errors.
- `src/text.rs`: the `.json` suffix test and the decoding of `%20` in names
  taken from a URL, with the proof that no `%20` is left behind.
- `src/internal_endpoints/admin/`: the handlers of endpoints, endpoint tests
  and configuration. Each is a state machine: it tells the server what to do
  next (read the body, parse it, look up, write, respond) and takes back what
  came of it. The proofs show that a request is answered after a bounded
  number of steps, touches the store at most once, and only ever stores a
  resource in a `.json` file.
- `src/internal_endpoints/mysql_proxy.rs`: the MySQL proxy, which injects the
  server's table names into each request.
- `src/endpoint.rs`, `src/simple_endpoint.rs`: endpoint definitions and their
  flat description, with both conversions and the proof that a description
  survives the round trip.
- `app/`: JSON forms of the library's types and async drivers that perform the
  handlers' actions against a store.
