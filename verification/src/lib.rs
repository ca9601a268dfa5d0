//! Conversion between epoch timestamps and broken-down civil time.
//!
//! A `Timespec` is an absolute instant: signed seconds since
//! 1970-01-01T00:00:00Z plus nanoseconds. A `Tm<Z>` is the human-readable
//! calendar reading of such an instant in the zone `Z` (`Utc` or `Local`);
//! the zone is part of the type, so a local reading cannot be fed back
//! through the UTC assembly path by mistake.
//!
//! The UTC direction needs no time-zone database and is implemented and
//! verified here as proleptic-Gregorian arithmetic. The local direction is
//! owned by the host operating system, which alone holds the authoritative
//! time-zone rules; this crate verifies the marshalling to and from the
//! host's native calendar layouts, while the host calls themselves live
//! outside the verified boundary.

pub mod calendar;
pub mod local;
pub mod types;
pub mod utc;
pub mod windows;

pub use local::{local_tm_from_native, native_from_local_tm, NativeCalendar};
pub use types::{Local, Timespec, Tm, Utc};
pub use utc::{assemble_utc, break_down_utc};
