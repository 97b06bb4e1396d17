use vstd::prelude::*;

verus! {

/// Severity of a log event, from most verbose to most severe.
#[derive(PartialEq, Eq, Structural, PartialOrd, Ord, Debug, Clone, Copy)]
pub enum Level {
    Debug,
    Info,
    Warn,
    Error,
}

/// Declared position of a level: Debug is 0, Info 1, Warn 2, Error 3.
pub open spec fn rank(l: Level) -> nat {
    match l {
        Level::Debug => 0,
        Level::Info => 1,
        Level::Warn => 2,
        Level::Error => 3,
    }
}

/// A threshold lets through every level at least as severe as itself.
pub open spec fn is_enabled(threshold: Level, level: Level) -> bool {
    rank(threshold) <= rank(level)
}

/// The constant's name, exactly as declared.
pub open spec fn name_of(l: Level) -> Seq<char> {
    match l {
        Level::Debug => seq!['D', 'e', 'b', 'u', 'g'],
        Level::Info => seq!['I', 'n', 'f', 'o'],
        Level::Warn => seq!['W', 'a', 'r', 'n'],
        Level::Error => seq!['E', 'r', 'r', 'o', 'r'],
    }
}

/// The display label of a level: its name between square brackets.
pub open spec fn label_of(l: Level) -> Seq<char> {
    seq!['['] + name_of(l) + seq![']']
}

impl Level {
    /// The level's position in the order Debug < Info < Warn < Error.
    pub fn rank(&self) -> (r: u8)
        ensures
            r as nat == rank(*self),
    {
        match self {
            Level::Debug => 0,
            Level::Info => 1,
            Level::Warn => 2,
            Level::Error => 3,
        }
    }

    /// Whether a message of `level` passes `self` used as a threshold.
    pub fn enabled(&self, level: &Level) -> (r: bool)
        ensures
            r == is_enabled(*self, *level),
            r == (rank(*self) <= rank(*level)),
    {
        self.rank() <= level.rank()
    }

    /// The bracketed label, e.g. `[Info]`.
    pub fn to_label(&self) -> (r: String)
        ensures
            r@ == label_of(*self),
    {
        match self {
            Level::Debug => {
                proof {
                    reveal_strlit("[Debug]");
                }
                String::from_str("[Debug]")
            },
            Level::Info => {
                proof {
                    reveal_strlit("[Info]");
                }
                String::from_str("[Info]")
            },
            Level::Warn => {
                proof {
                    reveal_strlit("[Warn]");
                }
                String::from_str("[Warn]")
            },
            Level::Error => {
                proof {
                    reveal_strlit("[Error]");
                }
                String::from_str("[Error]")
            },
        }
    }
}

} // verus!
