//! Verified core of a compositor-based text demo.
//!
//! The demo opens a native window, creates a hardware-accelerated rendering
//! device (falling back to a software device when the hardware path is
//! unsupported), draws masked text into a compositing surface, and pumps a
//! message loop until the window closes.  The platform calls themselves are
//! pure I/O and live outside this crate; what is verified here is every
//! decision the program makes along the way:
//!
//! - [`d3d`]: the two-attempt device-creation policy with its single,
//!   code-specific fallback;
//! - [`composition`]: the begin/end draw-scope protocol of a drawing surface,
//!   including the mandatory offset translation for partial-surface updates;
//! - [`window`]: the window shell that turns destroy notifications into
//!   exactly one exit request, the one-time window-class registration, and
//!   the registry that routes messages to the window that owns them;
//! - [`launch`]: the startup sequence that ties the pieces together and
//!   interprets the message loop's exit code.

pub mod composition;
pub mod d3d;
pub mod launch;
pub mod window;

