# content

Content and media records as a verified library: contents and their objects,
the store of their bytes, their metadata and their lifecycle, behind one
service. No HTTP; the caller owns routes, validation and wire formats.

## Layout

- `src/status.rs`, `src/types.rs`, `src/input.rs`, `src/error.rs`: the domain.
- `src/clock.rs`, `src/store.rs`, `src/repo/`: the four ports, each with an
  implementation in memory. A port states of itself what each method may do.
  The ports in memory state all of it but two things that rest on the outside:
  of an instant they state that it is written in UTC, of a minted id that it is
  a version 7 id and larger than those minted before it.
- `src/repo/postgres.rs`: the statements that a PostgreSQL repository sends and
  what it makes of the replies. `src/sql.rs` is the layer over `sea_query`.
- `src/service.rs`: `ContentService` and its builder, with contracts over the
  relations of the ports.
- `src/laws/`: what holds across calls, as proof functions.
- `src/ext.rs`: what is believed of `uuid`, `time`, `bytes` and `serde_json`.
- `app/`: the PostgreSQL connection, a `std::error::Error`, and a service that
  can be shared.

## Use

```rust
use content::{ContentService, InMemoryContentRepo, InMemoryObjectRepo, InMemoryObjectStore};

let mut service = ContentService::builder(InMemoryContentRepo::new(), InMemoryObjectRepo::new())
    .store(InMemoryObjectStore::new())
    .backend_name("memory")
    .build();

let out = service.upload_content(input, Some(actor))?;
let bytes = service.download_content(out.content.id)?;
```

An upload creates its rows before it hands over the bytes, and there is no
transaction around it: a store that fails leaves the rows behind, as `Created`.
