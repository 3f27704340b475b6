# bender

A small HTTP service that hands out quotes, in JSON, HTML or plain text.

- `src/` is the verified library: the quote store and its lookups, the
  request handlers' answers, content negotiation and response bodies, the
  health reports, the loaders' decisions, the choice of telemetry backend
  and the parsing of the listening port. Calls into `rand`, `chrono`, `actix`
  and the standard library's case mapping go through small trusted wrappers
  whose contracts are stated in their doc comments.
- `app/` is the server around it: the actix actor and routes, file and blob
  storage I/O, JSON (de)serialisation and telemetry setup.
- `tests/` exercises the library on concrete values.
