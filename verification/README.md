# api

The verified core of a collaborative music catalogue: value objects, paging,
the mapping of domain errors to HTTP error answers, presenters and request
types, in-memory repositories, the query pieces of the media listing, and
password hashing.

Layout:

- `src/shared/` — slugs, identifiers and sets of identifiers, paging
  arithmetic, the UUID validator, contributions, the password hashing trait.
- `src/domain/` — entities and the errors of their repositories and use
  cases; the `Entity` trait of what an in-memory store can hold.
- `src/infra/actix/` — `ErrorResponse`, the conversions into it and their
  laws, request types and presenters.
- `src/infra/in_memory/` — a store keyed by identifier and the repositories
  built on it.
- `src/infra/sql/` — the steps that build the media listing queries.
- `src/infra/bcrypt.rs` — password hashing with bcrypt.
- `src/entity_codegen.rs` — what the entity derive generates, item by item:
  accessors, setters, the builder and its conversions, each with its
  signature and what its body does.
- `app/` — the JSON forms of the request and answer types, with their
  validation rules.

Times are held as seconds since the Unix epoch and dates as year, month and
day.
