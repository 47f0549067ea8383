//! Time-bucketed placement of expiring objects.
//!
//! An uploaded object is named by an identifier that carries its own
//! expiration instant. The identifier alone gives the storage directory (an
//! hour-wide bucket named by the Unix second at which it ends), so no index
//! is kept; a periodic sweep removes every bucket whose hour has passed.
//!
//! The library decides and leaves the doing to its caller: it reads no
//! clock, no form and no storage. `util` holds the bucket directory scheme,
//! `object_id` the identifiers, `cleanup` the sweep, and `routes` what the
//! handlers of requests decide; `instant`, `decimal`, `paths`, `media` and
//! `text` serve them.

pub mod cleanup;
pub mod decimal;
pub mod instant;
pub mod media;
pub mod object_id;
pub mod paths;
pub mod routes;
pub mod text;
pub mod util;
