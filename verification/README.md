# twitch_types

Shared types of the Twitch API, verified with Verus.

- `src/ids.rs`: typed string identifiers (`UserId`, `EmoteId`, …).
- `src/timestamp.rs`: timestamps in the RFC 3339 layout with a `Z` offset —
  a light validation of their text (the values of the fields are not
  checked), setting the time of day, laws about both, and parsing with
  `time`; `src/timestamp_order.rs`: their order;
  `src/clock.rs`: timestamps from the system clock.
- `src/emote.rs`: emote CDN URLs and the builder for them.
- `src/kinds.rs`: enumerations with their JSON names; `src/records.rs`: shared
  records.
- `src/text.rs`: character and byte sequence helpers.
- `app/`: the serde, `Display` and `PartialOrd` forms of the types, which
  convert to and from the library's.

## Timestamps and the `time` crate

Timestamps are checked by the library's own validator, which accepts only
UTC timestamps ending in `Z`; offsets such as `-01:00` are refused with a
message that points to parsing them with `time`. `set_time` rewrites the
partial time in the text itself. `to_fixed_offset` and `to_utc` parse the
text with `time` and give `None` where `time` refuses it. The library has no
conversions from or comparisons with `time::OffsetDateTime`.
`Timestamp::now` and `Timestamp::today` read the clock through `std` and
`time`, and fail rather than panic where the clock lies outside the years
`time` represents.
