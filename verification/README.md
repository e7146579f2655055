# violet

An error and event tracker for applications: applications report their errors
over HTTP with an application token, their owners list them, and a Discord bot
registers applications and shows their latest events.

- `src/` is the library, verified with Verus: request validation, the answers
  of every route, token creation and previews, session tokens, the SQL of the
  error listing, the authentication decisions, the event channel, the schema
  setup sequence, and the bot's messages, help, greeting and the step
  function of its application-registration dialogue.
- `app/` is the server around it: configuration, the database pool and
  queries, the actix-web routes, extractors and middleware, and the legacy
  event intake. The Discord connection itself is not part of this crate.
- `tests/` runs the library on concrete values.
