//! A seekable, random-access read adapter over a remote, range-addressable
//! object store, together with the catalog builder that enumerates the
//! store's containers and objects.
//!
//! The remote transport is stateless: every read is one byte-range fetch,
//! and seeking is a purely local change of position. The store itself (the
//! network side of listing and range requests) is an outside collaborator;
//! this crate holds the decisions — which range to request, how to advance
//! the position, when a listing pass is complete — and proves them.

pub mod catalog;
pub mod error;
pub mod file;
pub mod handle;
pub mod plugin;

pub use crate::catalog::{CatalogBuilder, ContainerDescriptor, ListingEvent, ObjectDescriptor};
pub use crate::error::StoreError;
pub use crate::file::{FetchOutcome, ReadPlan, RemoteSeekableFile, SeekTarget};
pub use crate::handle::RemoteFileHandle;
pub use crate::plugin::{Results, YaraPlugin};
