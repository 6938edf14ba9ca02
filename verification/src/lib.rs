//! A transient-content store: small text and file entries, the pastes, are created,
//! optionally encrypted, served for a bounded lifetime and then reclaimed.
//!
//! This crate is the lifecycle engine of such a store. It decides how the content of an
//! entry is encrypted, where the bytes of its attachment live and under which name, who may
//! remove it, and when it is evicted. It does no input or output of its own: the server
//! around it reads requests, holds the lock on the store, talks to the storage backends and
//! mirrors the store to a durable index, and asks this crate at every step what to do.
//!
//! - [`pasta`]: the entity, the locator of its attachment, and what is shown of an entity.
//! - [`store`]: the collection of all entities.
//! - [`util::misc`]: encryption and the eviction of entities whose time has come.
//! - [`util::storage`]: where a storage path leads.
//! - [`util::contentrenderer`]: the kind of a text, and text made fit for display.
//! - [`util::text`]: operations on characters that the rest is built on.
//! - [`endpoints::create`]: from the fields of a request to a new entity.
//! - [`endpoints::remove`]: removal on request.
//! - [`endpoints::file`]: downloads of attachments.
//! - [`args`]: the configuration.

pub mod args;
pub mod endpoints;
pub mod pasta;
pub mod store;
pub mod util;
