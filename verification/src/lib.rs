//! Verified core of the classified-ads services: the corporate article
//! desk, second-hand giveaway ads with their takers ("bider"), worker ads,
//! and job ads with their applications ("lamaran").
//!
//! Identifiers are `u128` (the numeric form of a UUID) and timestamps are
//! whole seconds since the Unix epoch; the HTTP layer converts.

mod wrap;

pub mod moderation;
pub mod store;
pub mod ad_store;
pub mod text;
pub mod search;
pub mod csv;
pub mod http;
pub mod util;
pub mod remote;
pub mod clients;

pub mod barang_bekas;
pub mod pekerjaan;
pub mod pekerja;
pub mod comms;
