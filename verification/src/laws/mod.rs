//! What holds of the library as a whole: laws that relate several operations.

pub mod contents;
pub mod download;
pub mod keys;
pub mod objects;
pub mod order;
pub mod parts;
pub mod postgres;
pub mod replies;
pub mod report;
pub mod repos;
pub mod requests;
pub mod service;
pub mod statements;
pub mod store;
pub mod upload;
pub mod words;

use vstd::prelude::*;

use crate::repo::memory::{InMemoryContentRepo, InMemoryObjectRepo};
use crate::service::ContentService;

verus! {

/// A service whose repositories are in memory.
pub type MemoryService<S, K> = ContentService<InMemoryContentRepo, InMemoryObjectRepo, S, K>;

} // verus!
