# dsa

The decision logic of DSA (Daily Stock Analysis), written in Verus and
proved against its contracts.

- `src/text.rs`, `src/strings.rs`, `src/json.rs`: characters, strings and a
  JSON document model with the specifications the rest is stated over.
- `src/bot/`: the chat bot: command parsing, the per-user rate limit,
  command replies and the DingTalk, Feishu and Discord message formats.
- `src/server/`: the HTTP front end's rules: the outbound proxy allow-list,
  the account-service request bodies and replies, stream authorisation,
  token estimates, module routing, local mode and the analysis/chat stream
  messages.
- `src/services/`: the services' rules: notification routing, quiet hours
  and the request each channel is sent; report rendering and its HTML
  preview; feed parsing and URL safety; password checks; the scheduler's
  state; decision signals and their price checks; backtest verdicts; market
  phases and guardrails; alert rules; portfolio requests, sales and the
  replay of trades into positions.
- `tests/`: tests run against the compiled library.
- `app/`: the HTTP server binary around the library.
