//! Terminal emphasis.

use vstd::prelude::*;
use vstd::string::*;

verus! {

/// Whether output is styled for a terminal.
#[derive(Clone, Copy, Debug, PartialEq, Eq, Structural)]
pub enum Color {
    Always,
    Never,
}

/// The escape sequence that switches bold on.
pub open spec fn bold_prefix() -> Seq<char> {
    "\x1b[1m"@
}

/// The escape sequence that resets the style.
pub open spec fn bold_suffix() -> Seq<char> {
    "\x1b[0m"@
}

impl Color {
    /// The text as it is written when emphasised: between the two escape
    /// sequences where styling is on, unchanged where it is off.
    pub open spec fn spec_bold(self, text: Seq<char>) -> Seq<char> {
        match self {
            Color::Always => bold_prefix() + text + bold_suffix(),
            Color::Never => text,
        }
    }

    /// Emphasises a text.
    pub fn bold(self, text: &str) -> (styled: String)
        ensures
            styled@ == self.spec_bold(text@),
    {
        match self {
            Color::Always => {
                let mut styled = String::from_str("\x1b[1m");
                styled.append(text);
                styled.append("\x1b[0m");
                styled
            },
            Color::Never => String::from_str(text),
        }
    }
}

} // verus!
