# the_entity

The game logic of *The Entity*, an asymmetric two-player horror puzzle: rooms and the
three-minute match timer, the persona-driven terminal with its forbidden-word strikes, the
ArmorIQ and Gemini hops of each terminal turn, and the room-scoped clue/manual and villain
speech generation. The library is written in Verus: every function carries a contract, and the
properties that span calls (the timer, the strike rule, the conversation window, the retry
bounds, what reaches the outside services) are proved in `src/laws.rs`.

Layout:

- `src/` — the verified library. `state` and `models` hold the rows and messages as plain
  values; `room`, `terminal`, `terminal_rules` and `terminal_callbacks` hold the room and
  terminal flows; `content` and `content_http` the generation flows; `http` plans the
  outbound calls; `prompts` and `schemas` build the Gemini prompts and response schemas;
  `config` the integration settings; `json` and `text` the string and JSON helpers.
- `tests/` — tests of the library on concrete values.
- `app/` — the SpacetimeDB module: tables, reducers and HTTP procedures that read rows, call
  the library, and write back what it returns.
