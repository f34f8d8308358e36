//! A terminal-output logging library for command-line applications.
//!
//! Leveled messages (ok / warn / err / info / dim / intro / outro / done /
//! step / debug / trace) are rendered either as human-readable styled text or
//! as machine-readable JSON lines. The dispatcher keeps a stack of open tasks
//! and steps, reports elapsed time when a task closes, and supports
//! structured key/value fields on individual events, a progress handle, and
//! a dump of the open tasks.
//!
//! The library itself performs no I/O: every operation returns the lines it
//! decided to emit, each with the semantic event kind and the stream it
//! belongs on, and the caller writes them out — to plain stdout/stderr or
//! through a richer terminal renderer.

use vstd::prelude::*;

pub mod banner;
pub mod clock;
pub mod config;
pub mod duration;
pub mod fields;
pub mod fmt;
pub mod json;
pub mod laws;
pub mod levels;
pub mod log;
pub mod printer;
pub mod progress;
pub mod strutil;
pub mod structured;
pub mod tree;

verus! {

pub use levels::Verbosity;
pub use levels::LogFormat;
pub use levels::LogLevel;
pub use fmt::EventKind;
pub use fmt::Formatter;
pub use printer::Printer;
pub use printer::Emission;
pub use printer::Stream;
pub use printer::TimestampMode;
pub use printer::Task;
pub use printer::stream_of;
pub use fields::Fields;
pub use structured::LogEvent;
pub use progress::Progress;
pub use config::Config;
pub use config::ConfigError;
pub use config::isfirstrun;
pub use banner::BannerConfig;
pub use duration::format_duration;

} // verus!
