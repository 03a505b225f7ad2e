//! Tile identifiers: `0..34` are the basic kinds (`1m..9m`, `1p..9p`,
//! `1s..9s`, `E S W N P F C`), `34..37` the red fives of man, pin and sou.
use vstd::prelude::*;

verus! {

pub const M5: usize = 4;
pub const P5: usize = 13;
pub const S5: usize = 22;
pub const M5R: usize = 34;
pub const P5R: usize = 35;
pub const S5R: usize = 36;
pub const WEST: u8 = 29;

/// The basic kind of a tile: a red five maps to its plain five.
pub open spec fn deaka(t: int) -> int {
    if t == 34 {
        4
    } else if t == 35 {
        13
    } else if t == 36 {
        22
    } else {
        t
    }
}

pub open spec fn is_aka(t: int) -> bool {
    34 <= t < 37
}

/// The kind that a dora indicator of kind `t` points at.
pub open spec fn next_kind(t: int) -> int {
    if t < 27 {
        if t % 9 == 8 {
            t - 8
        } else {
            t + 1
        }
    } else if t < 31 {
        if t == 30 {
            27
        } else {
            t + 1
        }
    } else if t == 33 {
        31
    } else {
        t + 1
    }
}

/// The indicator kind that points at kind `t`.
pub open spec fn prev_kind(t: int) -> int {
    if t < 27 {
        if t % 9 == 0 {
            t + 8
        } else {
            t - 1
        }
    } else if t < 31 {
        if t == 27 {
            30
        } else {
            t - 1
        }
    } else if t == 31 {
        33
    } else {
        t - 1
    }
}

pub fn deaka_tile(t: u8) -> (r: u8)
    requires
        t < 37,
    ensures
        r as int == deaka(t as int),
        r < 34,
{
    if t == 34 {
        4
    } else if t == 35 {
        13
    } else if t == 36 {
        22
    } else {
        t
    }
}

pub fn next_tile(t: u8) -> (r: u8)
    requires
        t < 34,
    ensures
        r as int == next_kind(t as int),
        r < 34,
{
    if t < 27 {
        if t % 9 == 8 {
            t - 8
        } else {
            t + 1
        }
    } else if t < 31 {
        if t == 30 {
            27
        } else {
            t + 1
        }
    } else if t == 33 {
        31
    } else {
        t + 1
    }
}

pub fn prev_tile(t: u8) -> (r: u8)
    requires
        t < 34,
    ensures
        r as int == prev_kind(t as int),
        r < 34,
{
    if t < 27 {
        if t % 9 == 0 {
            t + 8
        } else {
            t - 1
        }
    } else if t < 31 {
        if t == 27 {
            30
        } else {
            t - 1
        }
    } else if t == 31 {
        33
    } else {
        t - 1
    }
}

} // verus!
