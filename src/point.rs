//! Point records of a completed hand.
use vstd::prelude::*;

verus! {

/// Upper bound of any single payment in a point record.
pub const MAX_PAYMENT: i32 = 12_240_000;

/// What a completed hand is worth: the ron payment, and for a tsumo the
/// payments of the dealer and of each non-dealer.
#[derive(Clone, Copy, Debug, PartialEq, Eq, Structural)]
pub struct Point {
    pub ron: i32,
    pub tsumo_oya: i32,
    pub tsumo_ko: i32,
}

/// The hand evaluator's verdict on a completed hand: a plain hand with its
/// total han (bonus han and dora included) and fu, or a yakuman multiple.
#[derive(Clone, Copy, Debug, PartialEq, Eq, Structural)]
pub enum Agari {
    Normal { fu: u8, han: u8 },
    Yakuman(u8),
}

pub open spec fn ceil100(x: int) -> int {
    (x + 99) / 100 * 100
}

pub open spec fn pow2(n: nat) -> int
    decreases n,
{
    if n == 0 {
        1
    } else {
        2 * pow2((n - 1) as nat)
    }
}

/// Basic points of a plain hand, with the usual limits.
pub open spec fn base_points(fu: int, han: int) -> int {
    if han >= 11 {
        6000
    } else if han >= 8 {
        4000
    } else if han >= 6 {
        3000
    } else if han == 5 {
        2000
    } else {
        let b = fu * pow2((han + 2) as nat);
        if b > 2000 {
            2000
        } else {
            b
        }
    }
}

pub open spec fn yakuman_spec(is_oya: bool, n: int) -> Point {
    if is_oya {
        Point { ron: (48000 * n) as i32, tsumo_oya: 0, tsumo_ko: (16000 * n) as i32 }
    } else {
        Point {
            ron: (32000 * n) as i32,
            tsumo_oya: (16000 * n) as i32,
            tsumo_ko: (8000 * n) as i32,
        }
    }
}

pub open spec fn from_base_spec(is_oya: bool, b: int) -> Point {
    if is_oya {
        Point { ron: ceil100(6 * b) as i32, tsumo_oya: 0, tsumo_ko: ceil100(2 * b) as i32 }
    } else {
        Point {
            ron: ceil100(4 * b) as i32,
            tsumo_oya: ceil100(2 * b) as i32,
            tsumo_ko: ceil100(b) as i32,
        }
    }
}

/// Points of a plain hand; thirteen han or more count as a yakuman.
pub open spec fn calc_spec(is_oya: bool, fu: int, han: int) -> Point {
    if han >= 13 {
        yakuman_spec(is_oya, 1)
    } else {
        from_base_spec(is_oya, base_points(fu, han))
    }
}

pub open spec fn agari_point_spec(a: Agari, is_oya: bool) -> Point {
    match a {
        Agari::Normal { fu, han } => calc_spec(is_oya, fu as int, han as int),
        Agari::Yakuman(n) => yakuman_spec(is_oya, n as int),
    }
}

impl Point {
    pub open spec fn bounded(self) -> bool {
        0 <= self.ron <= MAX_PAYMENT && 0 <= self.tsumo_oya <= MAX_PAYMENT && 0 <= self.tsumo_ko
            <= MAX_PAYMENT
    }

    pub open spec fn tsumo_total_spec(self, is_oya: bool) -> int {
        if is_oya {
            3 * self.tsumo_ko
        } else {
            self.tsumo_oya + 2 * self.tsumo_ko
        }
    }

    pub fn yakuman(is_oya: bool, n: u8) -> (r: Point)
        ensures
            r == yakuman_spec(is_oya, n as int),
            r.bounded(),
    {
        let n = n as i32;
        if is_oya {
            Point { ron: 48000 * n, tsumo_oya: 0, tsumo_ko: 16000 * n }
        } else {
            Point { ron: 32000 * n, tsumo_oya: 16000 * n, tsumo_ko: 8000 * n }
        }
    }

    /// Points of a plain hand of `han` han and `fu` fu.
    pub fn calc(is_oya: bool, fu: u8, han: u8) -> (r: Point)
        ensures
            r == calc_spec(is_oya, fu as int, han as int),
            r.bounded(),
    {
        if han >= 13 {
            return Point::yakuman(is_oya, 1);
        }
        let base: i32 = if han >= 11 {
            6000
        } else if han >= 8 {
            4000
        } else if han >= 6 {
            3000
        } else if han == 5 {
            2000
        } else {
            let mut p: i32 = 4;
            let mut k: u8 = 0;
            proof {
                reveal_with_fuel(pow2, 7);
            }
            while k < han
                invariant
                    k <= han,
                    han < 5,
                    p as int == pow2((k + 2) as nat),
                    k == 0 ==> p == 4,
                    k == 1 ==> p == 8,
                    k == 2 ==> p == 16,
                    k == 3 ==> p == 32,
                    k == 4 ==> p == 64,
                decreases han - k,
            {
                proof {
                    reveal_with_fuel(pow2, 7);
                }
                p = p * 2;
                k = k + 1;
            }
            let b: i32 = fu as i32 * p;
            if b > 2000 {
                2000
            } else {
                b
            }
        };
        if is_oya {
            Point {
                ron: (6 * base + 99) / 100 * 100,
                tsumo_oya: 0,
                tsumo_ko: (2 * base + 99) / 100 * 100,
            }
        } else {
            Point {
                ron: (4 * base + 99) / 100 * 100,
                tsumo_oya: (2 * base + 99) / 100 * 100,
                tsumo_ko: (base + 99) / 100 * 100,
            }
        }
    }

    /// What a tsumo collects from the three other players.
    pub fn tsumo_total(&self, is_oya: bool) -> (r: i32)
        requires
            self.bounded(),
        ensures
            r == self.tsumo_total_spec(is_oya),
    {
        if is_oya {
            3 * self.tsumo_ko
        } else {
            self.tsumo_oya + 2 * self.tsumo_ko
        }
    }
}

impl Agari {
    /// The point record of this verdict for a dealer or a non-dealer winner.
    pub fn point(&self, is_oya: bool) -> (r: Point)
        ensures
            r == agari_point_spec(*self, is_oya),
            r.bounded(),
    {
        match self {
            Agari::Normal { fu, han } => Point::calc(is_oya, *fu, *han),
            Agari::Yakuman(n) => Point::yakuman(is_oya, *n),
        }
    }
}

} // verus!
