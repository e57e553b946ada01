# akinator

A chat bot for traQ that plays the Akinator guessing game, with the part
that decides proved correct by Verus.

- `src/` is the verified library:
  - `akinator.rs`: the state of a game, the requests it sends, and what it
    makes of the site's answers (`after_response`, `after_start`);
  - `page.rs`: reading the session and the first question from the opening
    page (through `regex`, `pattern.rs`); `web.rs` parses and joins URLs
    (`reqwest::Url`) and checks header values;
  - `webhook.rs`: what the bot does with a request from traQ (parsed with
    `traq-bot-http`): refuse it, hand its event to a handler, or answer
    with no content;
  - `game.rs`: the running games of the bot, which lapse after three minutes;
  - `bot.rs`: the reactions the bot offers and understands, and its messages;
  - `github.rs`, `database.rs`: personal access tokens, GraphQL outcomes,
    the database port;
  - `text.rs`: string comparison, search and integer reading, each proved
    against its statement.
- `app/` is the program around it: the HTTP exchanges with Akinator, traQ and
  GitHub, the database, and the web server.
- `tests/` runs the library on concrete values.
