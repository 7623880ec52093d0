# cardboard

The verified core of an anonymous imageboard: boards, threads and replies,
posters identified per board and per day by a tripcode.

- `src/` is the library, verified with Verus. It holds request validation
  (`validation`, `boards`, `posts`), the rows inserted for boards and posts and
  the responses built from stored rows, the paging rules, the tripcode
  derivation (`tripcode`), the daily-salt rotation policy (`salt`), the
  request flows that alternate storage work and decisions (`flows`), and the
  laws that the stored threads keep their shape (`threads`).
- `app/` is the HTTP server: axum routes, the sea-orm entities and migration,
  and the conversions between stored rows and the library's records. It runs
  the database work that the library's flows ask for.
- `tests/` exercise the library on concrete values.
