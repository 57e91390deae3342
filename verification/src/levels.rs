//! Log levels: a small closed set with a total order, a fixed glyph and a
//! fixed color per level.
//!
//! The threshold order is the declaration order, not severity order:
//! `SUCCESS` and `FAILURE` rank above `ERROR`. This is a deliberate policy
//! of the library and threshold comparisons must use this order.

use vstd::prelude::*;

verus! {

/// The six log levels, ordered `DEBUG < INFO < WARN < ERROR < SUCCESS < FAILURE`.
#[derive(Debug, Clone, Copy, PartialEq, Eq, PartialOrd, Ord, Structural)]
pub enum LogLevel {
    DEBUG,
    INFO,
    WARN,
    ERROR,
    SUCCESS,
    FAILURE,
}

/// A fixed foreground color, as one red/green/blue triple.
#[derive(Debug, Clone, Copy, PartialEq, Eq, Structural)]
pub struct Rgb {
    pub red: u8,
    pub green: u8,
    pub blue: u8,
}

impl LogLevel {
    /// The level's position in the declared order, used for threshold
    /// comparison.
    pub open spec fn spec_rank(self) -> u8 {
        match self {
            LogLevel::DEBUG => 0,
            LogLevel::INFO => 1,
            LogLevel::WARN => 2,
            LogLevel::ERROR => 3,
            LogLevel::SUCCESS => 4,
            LogLevel::FAILURE => 5,
        }
    }

    /// The level's fixed glyph.
    pub open spec fn spec_symbol(self) -> Seq<char> {
        match self {
            LogLevel::DEBUG => "[#]"@,
            LogLevel::INFO => "[>]"@,
            LogLevel::WARN => "[!]"@,
            LogLevel::ERROR => "[x]"@,
            LogLevel::SUCCESS => "[+]"@,
            LogLevel::FAILURE => "[-]"@,
        }
    }

    /// The level's name, as rendered for the `level` placeholder.
    pub open spec fn spec_name(self) -> Seq<char> {
        match self {
            LogLevel::DEBUG => "DEBUG"@,
            LogLevel::INFO => "INFO"@,
            LogLevel::WARN => "WARN"@,
            LogLevel::ERROR => "ERROR"@,
            LogLevel::SUCCESS => "SUCCESS"@,
            LogLevel::FAILURE => "FAILURE"@,
        }
    }

    /// The level's fixed color.
    pub open spec fn spec_color(self) -> Rgb {
        match self {
            LogLevel::DEBUG => (Rgb { red: 100, green: 100, blue: 255 }),
            LogLevel::INFO => (Rgb { red: 255, green: 255, blue: 255 }),
            LogLevel::WARN => (Rgb { red: 255, green: 165, blue: 0 }),
            LogLevel::ERROR => (Rgb { red: 255, green: 0, blue: 0 }),
            LogLevel::SUCCESS => (Rgb { red: 0, green: 255, blue: 0 }),
            LogLevel::FAILURE => (Rgb { red: 139, green: 0, blue: 0 }),
        }
    }

    /// Position in the declared order, for threshold comparison.
    pub fn rank(&self) -> (r: u8)
        ensures
            r == self.spec_rank(),
    {
        match self {
            LogLevel::DEBUG => 0,
            LogLevel::INFO => 1,
            LogLevel::WARN => 2,
            LogLevel::ERROR => 3,
            LogLevel::SUCCESS => 4,
            LogLevel::FAILURE => 5,
        }
    }

    /// The glyph shown in front of a rendered line.
    pub fn symbol(&self) -> (r: &'static str)
        ensures
            r@ == self.spec_symbol(),
    {
        match self {
            LogLevel::INFO => "[>]",
            LogLevel::DEBUG => "[#]",
            LogLevel::WARN => "[!]",
            LogLevel::ERROR => "[x]",
            LogLevel::SUCCESS => "[+]",
            LogLevel::FAILURE => "[-]",
        }
    }

    /// The level's name as text.
    pub fn name(&self) -> (r: &'static str)
        ensures
            r@ == self.spec_name(),
    {
        match self {
            LogLevel::DEBUG => "DEBUG",
            LogLevel::INFO => "INFO",
            LogLevel::WARN => "WARN",
            LogLevel::ERROR => "ERROR",
            LogLevel::SUCCESS => "SUCCESS",
            LogLevel::FAILURE => "FAILURE",
        }
    }

    /// The fixed foreground color used to wrap a rendered line.
    pub fn color(&self) -> (r: Rgb)
        ensures
            r == self.spec_color(),
    {
        match self {
            LogLevel::INFO => Rgb { red: 255, green: 255, blue: 255 },
            LogLevel::DEBUG => Rgb { red: 100, green: 100, blue: 255 },
            LogLevel::WARN => Rgb { red: 255, green: 165, blue: 0 },
            LogLevel::ERROR => Rgb { red: 255, green: 0, blue: 0 },
            LogLevel::SUCCESS => Rgb { red: 0, green: 255, blue: 0 },
            LogLevel::FAILURE => Rgb { red: 139, green: 0, blue: 0 },
        }
    }
}

/// Whether a message at `level` passes a logger whose threshold is `min`.
pub open spec fn spec_should_log(min: LogLevel, level: LogLevel) -> bool {
    level.spec_rank() >= min.spec_rank()
}

/// Threshold filtering follows the declared order: a level at or above the
/// threshold passes, and passing is monotone in the level's rank.
pub proof fn lemma_should_log_order(min: LogLevel, lo: LogLevel, hi: LogLevel)
    requires
        lo.spec_rank() <= hi.spec_rank(),
    ensures
        spec_should_log(min, lo) ==> spec_should_log(min, hi),
        min.spec_rank() <= lo.spec_rank() ==> spec_should_log(min, lo),
{
}

} // verus!
