//! Time values as a count of milliseconds.
//!
//! Durations, timestamps and readings of the monotonic clock are each
//! turned into one integer, the milliseconds they stand for, and back.
//! An optional value becomes an optional integer. [`serialize`] and
//! [`deserialize`] are the two entry points; which types they accept is
//! fixed by [`Milliseconds`].
//!
//! - A `std::time::Duration` is its length in whole milliseconds.
//! - A `SystemTime` is the whole milliseconds between the Unix epoch and
//!   it. A time before the epoch has no encoding.
//! - An `Instant` has no meaning outside its process, so it is carried
//!   as the wall clock time that is as far from the wall clock's "now"
//!   as the instant is from the monotonic clock's "now". Both clocks are
//!   read once for every conversion.
//! - A `time::Duration` is the signed count of milliseconds that its
//!   seconds and its nanoseconds give. It is written as an `i128` and
//!   read from an `i64`.
//!
//! What lies below one millisecond is dropped. A value that cannot be
//! converted gives a [`RangeError`]; no conversion panics, wraps or
//! clamps.
pub mod anchor;
pub mod clock;
pub mod error;
pub mod funcs;
pub mod impls;
pub mod laws;
pub mod millis;
mod traits;

pub use error::RangeError;
pub use funcs::{deserialize, serialize};
pub use traits::Milliseconds;
