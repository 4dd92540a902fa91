# bybit

WebSocket sessions with the Bybit exchange, with the logic verified in Verus.

`src/` is the verified library:

- `request`: pings, subscriptions and order requests, and the laws that whoever reads such a text
  finds what was asked for
- `topics`, `text`: the topics of the feeds, and numbers and symbols as text
- `stream`: for each session, what a connection is opened to and what is asked of it
- `event_loop`: the loop that serves a connection, as a machine from what came of the last action
  to the next action
- `handler`: what is done with the text of a message
- `events`, `outbox`: what each feed takes from an event, and what of it is delivered
- `snapshots`, `table`: linear tickers, kept up to date from their changes, and the fields they have
- `json`, `ambient`: what the library has from `serde_json`, `rand` and the clock
- `error`: the errors

`app/` runs the sessions over tokio: it opens connections through a `Connect` that the user
provides, performs the actions of the loop, decodes messages with serde and sends items into
channels.

A message body that the library has no need to look into stays a `serde_json::Value`. A request
for orders carries the list of its arguments in the same form.
