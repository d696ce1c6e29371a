# librespot (verified core)

The data and rules of a Spotify client library, written in Verus: file
identifiers, packet codes, the error kinds and which outside errors map to
which kind, the Mercury request encoding, dealer payload decoding, device
types, playback settings parsed from names, and the metadata values built from
protocol messages. Each public function states its result in its contract.

Layout:

- `src/` — the verified library, one module per area (`file_id`, `packet`,
  `error`, `mercury`, `config`, `dealer`, `request`, `proto`, `metadata`,
  `playback`, and `text` for the string helpers they share).
- `tests/` — tests on concrete values for the public functions.
- `app/` — the unverified rest: JSON and protobuf parsing with `serde` and
  `protobuf`, conversions of outside errors, system queries, and the
  floating-point audio types (volume curves, player configuration, samples,
  dithering noise).

What the library does not hold: identifiers (`SpotifyUri`), dates, artists,
external ids, restrictions, content ratings, videos, playlist attributes and
items, sale periods, availability and the session. They come from parts of
the client that this project does not include. So `Track`, `Episode`,
`Album`, `SelectedListContent` and `PlaylistOperation` (with its add and
remove parts) hold only the fields that are plain values; a playlist's
timestamp is kept in milliseconds. `Playlist`, `Disc`, `PlaylistDiff`,
`PlaylistItem`, `SalePeriod`, `Availability` and `TranscodedPicture` are left
out.
