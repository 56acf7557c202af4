# sprout_mobile

The core of the Sprout mobile client (iOS and Android shells talk to it over
UniFFI), written in Verus: the logic is verified, the I/O around it is plain
Rust.

## Layout

- `src/` — the verified library.
  - `json.rs`, `text.rs`, `encoding.rs`, `time.rs`: JSON values as the
    library reads them, string and number formatting, hex/base64/percent
    encoding and SHA-256, RFC 3339 time.
  - `types.rs`, `error.rs`: the records exchanged with the native shells and
    the error type.
  - `converters.rs`: relay JSON objects to channels, profiles, members,
    messages (with `h`, `e` and `imeta` tags), DMs, search hits, feed items.
  - `event.rs`: NIP-01 events, read from and written to JSON, and signing.
  - `auth/`: keys (generate, import, export), NIP-42 AUTH events, NIP-98
    HTTP auth headers, API token minting and the token cache rules.
  - `relay_protocol.rs`: relay-to-client messages.
  - `ws/`: client-to-relay frames, subscription filters and ids, the
    subscription registry replayed on reconnect, and the connection state
    machine (handshake, message handling, reconnect backoff).
  - `http/`: the REST base URL, paths, headers and bodies, how a response
    is read, what each endpoint's answer becomes, Blossom uploads.
  - `client.rs`: what the client operations require and decide.
  - `store.rs`: the names under which channel types and visibilities are
    stored.
- `app/` — the UniFFI object and callback interface, the reqwest HTTP
  client, the tokio-tungstenite connection task, the SQLite cache, and the
  calls into the Sprout SDK's event builders.
- `tests/` — tests of the library, run against the real outside crates.
