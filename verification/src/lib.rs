//! Content and media records: their lifecycle, their repositories, the store of
//! their bytes, and the service that ties these together. No HTTP, no wire
//! format: callers bring validated input and get domain data back.
//!
//! `ContentService` is written against four ports (`ContentRepo`, `ObjectRepo`,
//! `ObjectStore`, `Clock`). Every port has an in-process implementation here;
//! `repo::postgres` holds what a PostgreSQL implementation decides (its
//! statements and its reading of the replies) without the connection itself.

pub mod clock;
pub mod error;
pub mod ext;
pub mod input;
pub mod laws;
pub mod repo;
pub mod service;
pub mod sql;
pub mod status;
pub mod store;
pub mod types;

pub use clock::{Clock, SystemClock};
pub use error::ContentError;
pub use ext::Uuid;
pub use input::{
    CreateContentInput, SetContentMetadataInput, UpdateContentInput, UploadContentInput,
};
pub use repo::{
    ContentRepo, InMemoryContentRepo, InMemoryObjectRepo, NewContent, NewObject, ObjectRepo,
};
pub use service::{ContentService, ContentServiceBuilder, UploadOutcome};
pub use status::{ContentStatus, ObjectStatus};
pub use store::{InMemoryObjectStore, ObjectMeta, ObjectStore, UploadParams};
pub use types::{Content, ContentMetadata, DerivedContent, Object, ObjectMetadata};
