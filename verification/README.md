# telegram

The Telegram side of a couple's finance bot, as a Verus-verified library.

The couple records money with guided commands in a shared group (`/gasto`,
`/entrada`, ...). Each command is a form: a pure state machine that asks one
field at a time, reads typed or tapped answers, and builds a service request
on confirmation. Replies are pt-BR HTML cards and reports.

## Layout

- `src/flows/`: the forms (`form`), their answers (`answers`), how typed text
  and taps are read (`interpret`, `dates`), the state machine (`engine`) and
  the requests a finished form turns into (`command`).
- `src/callback_data.rs`: inline-button payloads, with proofs that every
  payload reads back as what was written and fits Telegram's 64 bytes.
- `src/render/`: every message text, from the flow cards to the daily and
  closing reports, each stated exactly by a spec function.
- `src/bot/`: the decisions on updates: who is talking, which command runs,
  which taps are taken, what undo and edit allow, what a failed commit keeps.
- `src/poller.rs`: backoff, offsets and rate-limit retries of the long poll.
- `src/calendar.rs`, `src/numbers.rs`, `src/money.rs`, `src/ids.rs`,
  `src/text.rs`, `src/html.rs`: dates, numerals, BRL amounts, UUID text,
  character sequences and HTML escaping.
- `app/`: the edges Verus does not see: the Bot API client behind a trait,
  the rate-limit decorator, update conversion and the long-poll loop.

Calls into `chrono`, `std::time::Duration`, and std's `char` and `str`
functions (`chars`, `collect`, `is_whitespace`, `is_alphanumeric`,
`to_lowercase`) go through small trusted wrappers whose contracts state
what those functions document; everything else is proved.
