//! Fetching a resource over HTTP and streaming it into object storage.
//!
//! The library holds every decision of a download: how the outbound request
//! is assembled, how a response is classified, how the destination path is
//! resolved, and in which order the body is read and written. The network and
//! the storage backend stay with the caller, which performs the actions the
//! library hands out and reports back what happened.
//!
//! - [`common`]: the request, the classification of a response, the file
//!   name a response suggests, and what the sink is opened with.
//! - [`with_store`] and [`without_store`]: the two kinds of destination, a
//!   path inside a store that is fixed beforehand and a URI that names the
//!   store itself.
//! - [`transfer`]: the copy of the body into the sink, step by step.
//! - [`download`]: one download from its request to its result.
//! - [`path`], [`uri`], [`text`], [`error`]: path normalization, URIs, text
//!   and failures.

pub mod common;
pub mod download;
pub mod error;
pub mod path;
pub mod text;
pub mod transfer;
pub mod uri;
pub mod with_store;
pub mod without_store;
