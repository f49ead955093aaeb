//! The fixed set of terminal styles used for all output.
use vstd::prelude::*;
use crate::text::owned;

verus! {

/// Foreground style for questions and status notices.
pub open spec fn cyan_code() -> Seq<char> {
    "\x1b[0;96m"@
}

/// Foreground style for success.
pub open spec fn green_code() -> Seq<char> {
    "\x1b[0;92m"@
}

/// Foreground style for errors.
pub open spec fn red_code() -> Seq<char> {
    "\x1b[0;91m"@
}

/// Foreground style for ordinary text.
pub open spec fn white_code() -> Seq<char> {
    "\x1b[0;97m"@
}

/// Foreground style for muted text.
pub open spec fn grey_code() -> Seq<char> {
    "\x1b[1;30m"@
}

/// The five display styles, each an ANSI escape sequence.
pub struct Colors {
    pub cyan: String,
    pub green: String,
    pub red: String,
    pub white: String,
    pub grey: String,
}

impl Colors {
    /// Whether the styles are the standard palette.
    pub open spec fn is_standard(&self) -> bool {
        &&& self.cyan@ == cyan_code()
        &&& self.green@ == green_code()
        &&& self.red@ == red_code()
        &&& self.white@ == white_code()
        &&& self.grey@ == grey_code()
    }

    /// The standard palette.
    pub fn new() -> (r: Colors)
        ensures
            r.is_standard(),
    {
        Colors {
            cyan: owned("\x1b[0;96m"),
            green: owned("\x1b[0;92m"),
            red: owned("\x1b[0;91m"),
            white: owned("\x1b[0;97m"),
            grey: owned("\x1b[1;30m"),
        }
    }
}

} // verus!
