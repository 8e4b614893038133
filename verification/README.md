# restaurant

A restaurant order-management service: an HTTP server over PostgreSQL and a
load client that exercises it.

- `src/` is the verified library: the rows recorded for ordered items (with
  their randomly drawn preparation time), the reading of the `item_name`
  query parameter, the answer of every endpoint for each outcome of its
  database statement, the database address, the endpoint description, decimal
  rendering, the SQL text and parameters of every statement that binds no
  price, and the client's request script with its workload.
- `app/` runs it: `main.rs` starts the server (or, given `client` as first
  argument, the load client); `server.rs` runs the database statements (and writes
  the three that bind prices), the axum handlers and the router; `client.rs` sends the scripted requests;
  `types.rs` holds the serde and clap shapes, and the menu and bill, whose
  prices are floating point.
- `tests/` exercises the library on concrete values.
