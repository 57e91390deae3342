//! A leveled, template-driven logging library.
//!
//! Messages pass a level threshold, are rendered through a configurable
//! placeholder template together with ambient key/value context entries,
//! wrapped in the level's terminal color escapes, and written to a
//! pluggable sink.

pub mod ansi;
pub mod clock;
pub mod context;
pub mod error;
pub mod format;
pub mod levels;
pub mod logger;
pub mod progress;
pub mod sink;
pub mod text;
pub mod timing;

pub use clock::Timestamp;
pub use context::ContextEntry;
pub use context::ContextGuard;
pub use error::LogError;
pub use format::FormatPlaceholder;
pub use format::FormatTemplate;
pub use format::RenderContext;
pub use levels::LogLevel;
pub use levels::Rgb;
pub use logger::logger;
pub use logger::Logger;
pub use progress::Progress;
pub use sink::LogSink;
pub use sink::MemorySink;
pub use timing::TimedOperation;
