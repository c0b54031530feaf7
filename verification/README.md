# timer_server

The verified core of a small timer and task tracking server, written in Verus.

- `src/` is the library, proved with Verus:
  - `models` — access rights and their stored codes, user and row records;
  - `errors` — the errors requests are answered with, how database failures
    are classified, their messages and HTTP status codes;
  - `requests` — what clients send, and the event messages that successful
    task and timer operations push to connected clients;
  - `events` — event names and the registry of connected clients;
  - `guards` — reading the session token from the `authorization` header and
    deciding who a request is made by;
  - `credentials` — password policy, Argon2 hashing and checking, usernames;
  - `tokens` — session tokens (base64 of random bytes) and the steps of
    issuing one, which keep at most three tokens per user;
  - `db_ops` — the rows the database operations write and how their results
    are answered;
  - `configuration` — settings and port parsing;
  - `text` — decimal formatting.
- `app/` is the program around it: HTTP routes and middleware (actix-web),
  the PostgreSQL queries (diesel), server-sent events and settings files.
- `tests/` exercise the library on concrete values.
