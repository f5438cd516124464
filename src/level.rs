use vstd::prelude::*;

verus! {

/// Log levels in order of increasing severity.
#[derive(Debug, Clone, Copy, PartialEq, Eq, Structural, PartialOrd, Ord, Hash)]
pub enum Level {
    Trace,
    Debug,
    Info,
    Warn,
    Error,
}

impl Level {
    /// The position of the level in the severity order, starting at 0.
    pub open spec fn rank(self) -> nat {
        match self {
            Level::Trace => 0,
            Level::Debug => 1,
            Level::Info => 2,
            Level::Warn => 3,
            Level::Error => 4,
        }
    }

    /// The fixed-width label used when a record is rendered.
    pub open spec fn label(self) -> Seq<char> {
        match self {
            Level::Trace => seq!['T', 'R', 'A', 'C', 'E'],
            Level::Debug => seq!['D', 'E', 'B', 'U', 'G'],
            Level::Info => seq![' ', 'I', 'N', 'F', 'O'],
            Level::Warn => seq![' ', 'W', 'A', 'R', 'N'],
            Level::Error => seq!['E', 'R', 'R', 'O', 'R'],
        }
    }

    /// The level whose rank is `value`, if there is one.
    pub open spec fn spec_from_rank(value: int) -> Option<Level> {
        if value == 0 {
            Some(Level::Trace)
        } else if value == 1 {
            Some(Level::Debug)
        } else if value == 2 {
            Some(Level::Info)
        } else if value == 3 {
            Some(Level::Warn)
        } else if value == 4 {
            Some(Level::Error)
        } else {
            None
        }
    }

    /// The rank of the level as a byte.
    pub fn as_u8(self) -> (r: u8)
        ensures
            r == self.rank(),
    {
        match self {
            Level::Trace => 0,
            Level::Debug => 1,
            Level::Info => 2,
            Level::Warn => 3,
            Level::Error => 4,
        }
    }

    /// Returns the label with a consistent width, for right-aligned output.
    pub fn as_str(&self) -> (r: &'static str)
        ensures
            r@ == self.label(),
    {
        proof {
            reveal_strlit("TRACE");
            reveal_strlit("DEBUG");
            reveal_strlit(" INFO");
            reveal_strlit(" WARN");
            reveal_strlit("ERROR");
        }
        match self {
            Level::Trace => "TRACE",
            Level::Debug => "DEBUG",
            Level::Info => " INFO",
            Level::Warn => " WARN",
            Level::Error => "ERROR",
        }
    }

    /// Converts a byte to the level of that rank, or `None` past the last one.
    pub fn from_u8(value: u8) -> (r: Option<Level>)
        ensures
            r == Level::spec_from_rank(value as int),
            r matches Some(l) ==> l.rank() == value,
            r is None <==> value > 4,
    {
        match value {
            0 => Some(Level::Trace),
            1 => Some(Level::Debug),
            2 => Some(Level::Info),
            3 => Some(Level::Warn),
            4 => Some(Level::Error),
            _ => None,
        }
    }
}

} // verus!
