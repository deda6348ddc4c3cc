use vstd::prelude::*;

verus! {

/// Foreground colours of the terminal, written as ANSI escape sequences.
#[derive(Debug, Clone, Copy, PartialEq, Eq)]
pub enum Fg {
    Red,
    Green,
    Yellow,
    Cyan,
    Reset,
}

impl Fg {
    /// The escape sequence that switches the terminal to this colour.
    pub open spec fn spec_code(self) -> Seq<char> {
        match self {
            Fg::Red => "\x1b[31m"@,
            Fg::Green => "\x1b[32m"@,
            Fg::Yellow => "\x1b[33m"@,
            Fg::Cyan => "\x1b[36m"@,
            Fg::Reset => "\x1b[39m"@,
        }
    }

    /// The escape sequence that switches the terminal to this colour.
    pub fn code(self) -> (r: &'static str)
        ensures
            r@ == self.spec_code(),
    {
        match self {
            Fg::Red => "\x1b[31m",
            Fg::Green => "\x1b[32m",
            Fg::Yellow => "\x1b[33m",
            Fg::Cyan => "\x1b[36m",
            Fg::Reset => "\x1b[39m",
        }
    }
}

} // verus!
