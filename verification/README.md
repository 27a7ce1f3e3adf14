# meshbrow

Client library for the Meshbrow managed browser-fleet API, verified with Verus.

- `src/` is the verified library: the client configuration and its headers
  (`client.rs`), the JSON request bodies (`json.rs`, `types.rs`), the request
  of every API call (`request.rs`), how replies are read (`reply.rs`), the
  error type (`error.rs`) and the laws that relate them (`laws.rs`).
- `app/` sends the requests over HTTP with `reqwest`, decodes replies with
  `serde`, and offers the asynchronous `Client` API.
- `tests/` runs the library on concrete values.
