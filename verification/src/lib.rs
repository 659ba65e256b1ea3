//! An opinionated, readability-focused log line formatter.
//!
//! The crate renders structured log events into single lines of text: a
//! dimmed timestamp, a colored five-column level, the active span scope,
//! the event target, and the event's fields, with the `message` field kept
//! in the default text style so that it stands out from the bracketed
//! metadata around it.
//!
//! Every rendering function carries a contract that pins the produced text
//! down exactly, over sequence views of the inputs.

mod config;
mod event;
mod fields;
mod style;
mod time;
mod yak_shave;

pub use config::ColorMode;
pub use config::Config;
pub use config::FilterLevel;
pub use config::Output;
pub use event::EventFormatter;
pub use event::Level;
pub use event::ScopeEntry;
pub use fields::Field;
pub use fields::FieldFormatter;
pub use fields::FieldType;
pub use fields::FieldValue;
pub use fields::FieldVisitor;
pub use style::StyleKind;
pub use time::TimeFormat;
pub use time::TimeFormatView;
pub use time::TimePatternError;
pub use yak_shave::shave;
pub use yak_shave::shave_all;
pub use yak_shave::MissingYakError;
pub use yak_shave::OutOfSpaceError;
pub use yak_shave::YakError;
