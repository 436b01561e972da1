//! Fixed-window rate limiting: a [`Limit`] says how many uses are allowed per
//! window, and a [`Bucket`] records uses per identifier and answers how long
//! an identifier has to wait before its next use.
//!
//! All times are nanoseconds. Instants are measured from the moment a bucket
//! was created.

pub mod bucket;
pub mod ledger;
pub mod limit;
pub mod usage;

pub use bucket::Bucket;
pub use limit::{Limit, LimitError};
pub use usage::Usage;
