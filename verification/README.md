# tano

The verified core of tano, a terminal music player, written in Verus.

`src/` is the library:

- `config` — the configuration: key modifiers, key codes and key bindings and
  how they are read from text (`keys`), keymaps, pages, providers, percentages
  and the configuration directory.
- `shared` — the configuration and data directories and the configuration file.
- `providers` — song providers, and how a song is assembled from what was read
  of an audio file and its tags (formats, years, defaults).
- `database` — the rows of the song library, the bulk SQL statements that
  write them (`builders`, on sqlx's `QueryBuilder`), and the statements by
  which a scan of the local files is brought into the library (`sync`), in
  the order that `plan` gives.
- `backend` — the decisions of the backend's event loop.
- `text`, `query` — what std and sqlx compute on strings and statements, as
  the contracts see it (the trusted wrappers), and a few string helpers.

The functions of `src/` are verified, but for the `#[verifier::external_body]`
wrappers in `text`, `query`, `shared` and `config::one_or_many`: each makes one
call into std or sqlx, and its contract is trusted, not proved. `SqlQuery` is
likewise opaque to Verus.

`app/` holds what talks to the outside world: reading the configuration file
and the environment, reading audio files, running the statements against
SQLite, and the actors that serve the user interface.
