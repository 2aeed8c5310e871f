# botkit

A library for building chat bots with one handler model across platforms
(Discord, Telegram, and a local CLI platform for driving bots from a terminal
or a unix socket). Matrix is covered only in its platform-independent parts —
configuration, command parsing, reaction routing and HTML rendering; the
Matrix client and its event loop, which need `matrix-sdk`, are not part of
this project.

## Layout

- `src/` — the verified library, checked by Verus:
  - `common/` — routing (`BotBuilder`), responses, components, embeds,
    extractors, errors, chat actions;
  - `cli/` — the CLI wire protocol, argument parsing for the driver, event
    injection and the mapping from responses to outbound lines;
  - `telegram/` — Bot API types, command and context extraction (with UTF-16
    entity offsets), reply planning (embeds are sent as plain text after the
    message), inline keyboards, long-poll backoff, and the markdown-to-entities
    renderer;
  - `discord/` — API types, gateway state machine, intents, REST routes,
    component encoding, reply planning and reconnect backoff;
  - `matrix/` — configuration and login planning, command parsing, reaction
    routing, which room events are acted on, and the HTML rendering of embeds
    and link buttons.
- `tests/` — tests of the library.
- `app/` — the run-time side for the CLI, Telegram and Discord platforms:
  async loops, sockets, HTTP, websockets, JSON encoding, handlers and
  extractors, and the `botkit-cli` driver.
