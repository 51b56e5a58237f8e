//! Caching decisions for a request handler: key derivation, the
//! hit / stale / miss state machine, bounded response bodies and manual
//! invalidation, over a pluggable store.
//!
//! A [`CacheLayer`] holds a store, a keyer and the options; a
//! [`CacheService`] is a layer around one handler. The service never calls
//! the handler itself. For each request it says, by [`CacheService::call`],
//! whether a stored response answers it or the handler has to be asked;
//! once the handler has replied, [`CacheService::settle`] and
//! [`CacheService::store`] say what goes out and what is kept.
//!
//! Whether a stored value has expired is the store's to say. What the
//! service does with the store's answer is fixed by [`service::plan_for`]
//! and [`service::write_back`], which take the answer as an argument.
//!
//! The rules are stated once, as mathematics, in [`model`]; what follows
//! from them is proved in [`laws`].

pub mod body;
pub mod clock;
pub mod entry;
pub mod keyer;
pub mod laws;
pub mod layer;
pub mod message;
pub mod model;
pub mod service;
pub mod shared;
pub mod store;
pub mod text;

pub use body::BodyTooLarge;
pub use entry::CachedResponse;
pub use keyer::{BasicKey, BasicKeyer, CacheKey, FnKeyer, Keyer};
pub use layer::CacheLayer;
pub use message::{Header, Request, Response};
pub use model::Settings;
pub use service::{CacheService, Pending, Plan, Verdict};
pub use store::CacheStore;
