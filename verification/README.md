# evgl-interfaces

Wire types and validation rules for Evento Globolo: events, ticket
inventory and orders, waitlists, and offline admission (signed tokens,
scanner key snapshots, scan receipts).

- `src/` is the verified library (Verus). Every request check states, in its
  contract, exactly when it accepts and which reason it gives when it does not.
  Instants are `time::Timestamp` (seconds and nanoseconds since the Unix epoch,
  ordered lexicographically); identifiers are `uuid::Uuid`.
- `app/` holds the serde forms of the records (snake-case enum values,
  RFC 3339 instants through chrono), conversions to and from the library's
  types, and `Display` for the validation errors.
- `tests/` exercises the library with concrete values.
