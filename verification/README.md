# seyal_client

Portable state of the Seyal terminal workspace client, written in Verus:
every reducer, parser and protocol decision carries a contract, and the
invariants that span calls are stated as proof functions.

## Layout

- `src/` — the verified library.
  - `ids` — opaque identities and their process-unique generation.
  - `shell`, `chrome`, `chrome_palette`, `chrome_depth`, `palette`,
    `composer` (+ `composer/history`), `presentation`, `live_tail`,
    `product`, `fixtures`, `application` — the product reducers and the
    one-Pane application root; `palette_laws` and `chrome_laws` state what
    the palette's command list, attention navigation and a chrome snapshot
    promise.
  - `client`, `control`, `receive`, `block` — the display attachment's
    error vocabulary, display-commit assembly, outbound FIFO and resize
    negotiation, inbound framing, and block-metadata cache; `poll` — the
    per-poll budget, frame routing and read reactions; `host_abi` — the
    integer packing of a snapshot for the native host.
  - `toml`, `config`, `settings`, `input_policy` — the configuration file
    grammar and what it says about UI settings and keyboard input.
  - `appearance` — appearance and material choices of theme resolution.
  - `text` — character-sequence helpers and the few trusted std calls.
  - `benchmark` — client timing marks.
- `tests/` — ordinary Rust tests against the compiled library.
- `app/` — process glue the verifier does not see: globals, files and
  environment, floating-point settings and grid measurement, and the socket
  loops that drive the verified control channel and receive buffer.
