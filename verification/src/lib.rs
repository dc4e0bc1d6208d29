//! Per-bar text overlay and caption layout for a terminal bar-chart widget.
//!
//! A [`Bar`](bar::Bar) holds one chartable quantity: a numeric magnitude, an
//! optional override display string, an optional caption label, and styles.
//! Two renderer operations place its resolved display text into a caller-owned
//! cell buffer: an embedded-value renderer that may split the text across two
//! styles when it overflows the bar's own column width, and a centered-caption
//! renderer that centers a value line and a label line within a fixed span.

pub mod bar;
pub mod buffer;
pub mod cell;
pub mod decimal;
pub mod style;
pub mod text;

pub use bar::Bar;
pub use buffer::Buffer;
pub use buffer::Rect;
pub use cell::Cell;
pub use style::Color;
pub use style::Style;
pub use text::Line;
pub use text::Span;
