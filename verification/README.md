# messenger

A small UDP/TCP chat: clients type commands or answer prompts, the server
keeps a room of members and relays messages between them.

- `src/` — the verified library (Verus): command-line parsing (`parse_command`,
  `get_next_token`, with Unicode white space as Rust defines it), method codes,
  requests, room membership and message routing (`Room`), the datagram and
  connection decoding of the servers, and the chat client's prompt dialog.
  Each public function states its result exactly; `law_*` proof functions
  state the properties that span calls.
- `app/` — the programs around it: sockets, threads, terminal I/O and the
  JSON encoding (serde) of requests.
- `tests/` — tests of the library on concrete values.
