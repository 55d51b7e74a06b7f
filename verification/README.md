# chat_server

The logic of a small chat service (accounts, friend lists, rooms and their
messages), written in Verus with contracts and proofs.

- `src/` is the verified library. `lists` holds the in-memory stores
  (accounts, friend lists, rooms, message lists); `user`, `friend`, `room`
  and `message` hold the request handlers over them; `db` holds the
  decisions the database-backed handlers take on fetched rows, and the
  stored form of id lists (the JSON text of a list reads back as the same
  list); `laws` proves what holds across the in-memory handlers (a login
  after sign-up succeeds, an added friend is listed, a posted message is
  read back, an opened room is listed for its creator, ...) and, for the
  database-backed handlers, over the rows they fetch (a stored room is
  listed for each of its members; a stored search lists the found accounts
  other than the searcher, marked by the stored friend list). The queries
  themselves run in `app/`.
- `app/` is the HTTP server (actix-web, sqlx on MySQL, Redis sessions):
  it parses requests, runs the queries, calls the library and answers.
- `tests/` runs the library on concrete values.
