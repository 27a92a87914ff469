use vstd::prelude::*;

verus! {

/// The six log levels, from the least verbose to the most verbose.
#[derive(Clone, Copy, Debug, PartialEq, Eq, Structural)]
pub enum Level {
    Off,
    Error,
    Warn,
    Info,
    Debug,
    Trace,
}

/// The highest rank a level can have (the rank of `Trace`).
pub const MAX_RANK: u8 = 5;

impl Level {
    /// Position of the level in the order `Off < Error < ... < Trace`.
    pub open spec fn rank(self) -> int {
        match self {
            Level::Off => 0,
            Level::Error => 1,
            Level::Warn => 2,
            Level::Info => 3,
            Level::Debug => 4,
            Level::Trace => 5,
        }
    }

    /// The level of a rank; every rank past the top names `Trace`.
    pub open spec fn of_rank(r: int) -> Level {
        if r <= 0 {
            Level::Off
        } else if r == 1 {
            Level::Error
        } else if r == 2 {
            Level::Warn
        } else if r == 3 {
            Level::Info
        } else if r == 4 {
            Level::Debug
        } else {
            Level::Trace
        }
    }

    pub fn index(self) -> (r: u8)
        ensures
            r as int == self.rank(),
    {
        match self {
            Level::Off => 0,
            Level::Error => 1,
            Level::Warn => 2,
            Level::Info => 3,
            Level::Debug => 4,
            Level::Trace => 5,
        }
    }

    /// The level of a rank, where ranks past the top mean `Trace`.
    pub fn from_index(i: u16) -> (r: Level)
        ensures
            r == Level::of_rank(i as int),
    {
        match i {
            0 => Level::Off,
            1 => Level::Error,
            2 => Level::Warn,
            3 => Level::Info,
            4 => Level::Debug,
            _ => Level::Trace,
        }
    }
}

/// `x` brought into the range of ranks, `0 ..= 5`.
pub open spec fn clamp_rank(x: int) -> int {
    if x <= 0 {
        0
    } else if x >= MAX_RANK {
        MAX_RANK as int
    } else {
        x
    }
}

/// The level chosen for a default level after `verbose` uses of `-v` and
/// `quiet` uses of `-q`: each `-v` moves one level up, each `-q` one level
/// down, and the result stays between `Off` and `Trace`.
pub open spec fn resolved(default_level: Level, verbose: int, quiet: int) -> Level {
    Level::of_rank(clamp_rank(default_level.rank() + verbose - quiet))
}

/// Picks the log level from the default level and the counts of the verbose
/// and quiet flags.
pub fn resolve(default_level: Level, verbose: u8, quiet: u8) -> (r: Level)
    ensures
        r == resolved(default_level, verbose as int, quiet as int),
        r.rank() == clamp_rank(default_level.rank() + verbose - quiet),
{
    let raised: u16 = (default_level.index() as u16).saturating_add(verbose as u16);
    let lowered: u16 = raised.saturating_sub(quiet as u16);
    Level::from_index(lowered)
}

/// The chosen level never goes down when `-v` is given more often, never goes
/// up when `-q` is given more often, and always is one of the six levels,
/// between `Off` and `Trace`.
pub proof fn lemma_resolve_monotone(default_level: Level, v1: nat, v2: nat, q1: nat, q2: nat)
    requires
        v1 <= v2,
        q2 <= q1,
    ensures
        resolved(default_level, v1 as int, q1 as int).rank() <= resolved(
            default_level,
            v2 as int,
            q2 as int,
        ).rank(),
        0 <= resolved(default_level, v1 as int, q1 as int).rank() <= MAX_RANK,
        resolved(default_level, v1 as int, q1 as int).rank() == clamp_rank(
            default_level.rank() + v1 - q1,
        ),
{
}

} // verus!
