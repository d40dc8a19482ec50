# webdriver_bidi

The verified core of an ACT component that drives a locally running browser
over WebDriver BiDi, and the thin component around it.

- `src/` is the library, verified with Verus:
  - `caps`: the `browser:*` capability classes and the set a session grants;
  - `tools`: which capabilities each tool needs, the exact JSON text of the
    BiDi command each tool sends, and what it makes of its reply (page
    text, node id, screenshot bytes);
  - `reply`: reading the reply members that tools and the handshake act on;
  - `addr`: the loopback-only endpoint check, the text of an address, the
    `ws://` URL, and the refusal messages;
  - `proto`: the text of an outgoing command, and the reading and
    classification of an incoming frame's text;
  - `demux`: what each frame means for the command being awaited;
  - `logbuf`: the bounded, drop-oldest console buffer;
  - `conn`: the per-connection state, the decisions of the command loop,
    and the per-command time budget;
  - `json`, `text`: JSON string, decimal and hex text, and `Debug` quoting.
- `tests/` exercises the library with concrete values.
- `app/` is the component itself: session registry and tool entry points,
  the tokio/WebSocket I/O, serde copies of library types, and the parsing of
  IP literals (std's, which the library cannot call). It builds the component's bindings from the
  `wit/` definitions that `just init` fetches.
