//! A format-mode overlay for engines that encode and decode structured values.
//!
//! A value's own encoding logic may ask the engine it is handed whether the format is human
//! readable, and encode itself differently for a textual and for a binary format. The two tags of
//! this crate, [`Readable`] and [`Compact`], fix the answer to that one question. A tagged engine,
//! builder, visitor or accessor forwards every operation to what it wraps, answers the mode query
//! with its own flag, and applies its tag to every value and every capability that passes through
//! it, so that the mode chosen at the root holds at every depth of a value.
//!
//! The roles that the overlay stands in are declared in [`ser`] and [`de`]. The overlay for each
//! role stands beside them, once for each tag, and what holds of it whatever is wrapped is stated
//! in the modules `laws`. The overlay has no failure of its own: every outcome is the wrapped
//! object's. [`Error`] is a failure for engines that need one.

pub mod configure;
pub mod de;
pub mod error;
pub mod ser;

pub use configure::{Compact, Configure, Readable};
pub use error::Error;
