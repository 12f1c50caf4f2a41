//! Detection of the terminal capabilities that matter for rendering text:
//! whether the locale asks for UTF-8, and whether the terminal advances the
//! cursor by the visual width of single-width and double-width characters.
//!
//! The crate performs no input or output of its own. The locale check works
//! on the value of the locale variable, and the width probe is a state
//! machine that tells its driver what to do next and is told what happened.

pub mod locale;
pub mod probe;
pub mod runs;
pub mod simulation;

pub use locale::locale_requests_utf8;
pub use probe::{probe_width, supports_double_width_chars, supports_single_width_chars};
