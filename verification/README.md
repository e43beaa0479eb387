# backend

The server of Music Room: accounts and sessions, friends, rooms with a shared
play queue, live rooms whose playback one device controls, and a music
provider that tracks are searched and streamed from.

The decisions of the service are a library verified with Verus, under `src/`:

- `auth` and `session`: what requests must look like, password hashing and
  checking, the tokens of a session, and how a request is authenticated;
- `users`, `friends`, `rooms`, `queue`: who may see and change what;
- `live`: who is connected to a live room, delegation of control, and which
  rooms are closed;
- `music` and `json`: the provider's addresses, the reading of its answers,
  and the choice of a stream address;
- `errors`, `email`, `tokens`, `text`: what errors are answered with, the
  e-mails sent, token hashes, and text helpers.

Each public function carries a contract (`requires` / `ensures`) over
mathematical models, and the laws that relate several functions are proof
functions. Calls into outside crates (hashing, JSON, base64, JWT, UUIDs,
e-mail validation) go through small trusted wrappers whose doc comments say
what is assumed of them.

`app/` is the server around the library: HTTP routes, the database, the
provider's HTTP client, sockets, mail, and the cleanup timers. `tests/` runs
the library on concrete values.
