# discord_social_sdk

Value types, enumerations and conversions of Rust bindings to the Discord Social
SDK, written in Verus and proved against their contracts.

## Layout

- `src/` — the verified library.
  - `activity.rs`: rich presence activities and their parts (assets,
    timestamps, party, secrets, buttons, invites).
  - `auth.rs`: OAuth2 authorization arguments and the PKCE challenge and
    verifier pair.
  - `audio.rs`, `channel.rs`, `message.rs`: audio devices, channels, guilds
    and their channels, additional message content.
  - `call.rs`: summaries of calls in lobbies and participants' voice states.
  - `client/`: client creation options, tokens and authorization codes, the
    status-change report, the HTTP timeout the SDK is given, and the shape of
    PCM audio buffers.
  - `enums.rs`: every SDK enumeration with its raw-value conversions, and the
    platform flag set.
  - `error.rs`: the categories of SDK failures.
  - `text.rs`: decoding of strings delivered by the SDK.
- `tests/` — tests run against the compiled library.
- `app/` — what the verified library cannot hold: the failure report, whose
  retry delay is a float, and `Debug` output that redacts secrets or prints
  only some fields.

What is not here: the client itself, live calls, lobbies, messages, users and
relationships, callback registration, and the ownership rules for strings,
spans and handles at the C boundary. All of those are calls into Discord's
prebuilt C SDK, a separate download that this crate does not link against.
What stands here is the part that computes on plain values: the value types,
the conversions of the SDK's raw integers and strings, and the mappings applied
to what the SDK reports.

Each value type has a view (`@`) that its contracts speak of: setters state the
new view in terms of the old one, getters return owned copies of a field of the
view, and clones hold the same view. Each enumeration states, as proof
functions, that its raw-value conversions round-trip.
