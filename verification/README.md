# emojied

Shorten your URLs with emojis.

`src/` is the verified library:

- `url`: cuts a submitted URL into scheme, host and path after normalizing
  its scheme, settles the identifier (trimmed and checked, or made up), and
  maps the outcomes of storing and looking up links.
- `emoji`: which identifiers count as emoji, and random identifiers of six
  emoticons.
- `config`, `web::config`: the settings read from environment variables
  (`PG__HOST`, `PG__USER`, `PG__DBNAME`, `PG__PORT` and a password are
  required), with integer parsing that follows `str::parse`.
- `pages`: status, redirect and page of every reply, and the texts the
  pages are built from.
- `leaderboard`, `db`: leaderboard entries and database errors.
- `text`: character-level string operations.

`app/` is the web server around it: environment and file reading, the
PostgreSQL pool, HTTP handlers and HTML rendering.
