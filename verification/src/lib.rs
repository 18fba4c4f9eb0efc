//! Broken-down calendar time and its textual forms.
//!
//! A [`Tm`] holds a calendar time field by field. [`strftime`] writes one
//! as text and [`strptime`] reads one from text, both led by a format in
//! which `%` and a letter stand for a field. What the two compute is
//! defined by [`format::formatted`] and [`parse::parsed`]; that the second
//! undoes the first is shown in [`round_trip`].

pub mod clock;
pub mod composite;
pub mod convert;
pub mod format;
pub mod names;
pub mod parse;
pub mod round_trip;
pub mod strict;
pub mod table;
pub mod text;
pub mod tm;

pub use clock::get_time;
pub use convert::{at, at_utc, Zone};
pub use format::{can_format, strftime, try_strftime};
pub use parse::{strptime, ParseError};
pub use tm::{empty_tm, Timespec, Tm, TmView};
