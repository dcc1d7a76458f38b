//! The ANSI escape sequences of the colours and styles in use.

use vstd::prelude::*;

verus! {

/// Red.
pub const RED: &'static str = "\x1b[31m";

/// Green.
pub const GREEN: &'static str = "\x1b[32m";

/// Yellow.
pub const YELLOW: &'static str = "\x1b[33m";

/// Blue.
pub const BLUE: &'static str = "\x1b[34m";

/// Magenta.
pub const MAGENTA: &'static str = "\x1b[35m";

/// Cyan.
pub const CYAN: &'static str = "\x1b[36m";

/// White.
pub const WHITE: &'static str = "\x1b[37m";

/// Gray.
pub const GRAY: &'static str = "\x1b[90m";

/// Bold.
pub const BOLD: &'static str = "\x1b[1m";

/// Dim.
pub const DIM: &'static str = "\x1b[2m";

/// The sequence that ends every colour and style.
pub const RESET: &'static str = "\x1b[0m";

} // verus!
