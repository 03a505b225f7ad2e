//! Decision helpers over a `PlayerState`.
use crate::point::{agari_point_spec, yakuman_spec, Agari, Point};
use crate::small_vec::{
    indicator_list, indicators_len, indicators_new, indicators_push, indicators_slice,
};
use crate::state::{
    AgariError, AgariRequest, PlayerState, SinglePlayerQuery, TablesError, TenpaiProbe,
};
use crate::tile::{
    deaka, deaka_tile, is_aka, next_kind, next_tile, prev_kind, prev_tile, M5, M5R, P5, P5R, S5, S5R,
    WEST,
};
use tinyvec::ArrayVec;
use vstd::prelude::*;

verus! {

/// Whether kind `i` (`i < 34`) may be discarded before any red-five split,
/// when no riichi is accepted.
pub open spec fn base_legal(s: PlayerState, i: int) -> bool {
    s.tehai[i] > 0 && if s.riichi_declared[0] {
        if s.shanten == 1 {
            s.next_shanten_discards[i]
        } else {
            s.keep_shanten_discards[i]
        }
    } else {
        !s.forbidden_tiles[i]
    }
}

/// Splits 34-wide flags `b` over the 37 tiles: a flagged five held as a red
/// one flags the red tile, and keeps the plain tile only while a plain copy
/// remains.
pub open spec fn split_akas(s: PlayerState, b: Seq<bool>, i: int) -> bool {
    if i == 34 {
        b[4] && s.akas_in_hand[0]
    } else if i == 35 {
        b[13] && s.akas_in_hand[1]
    } else if i == 36 {
        b[22] && s.akas_in_hand[2]
    } else if i == 4 {
        b[4] && (s.akas_in_hand[0] ==> s.tehai[4] > 1)
    } else if i == 13 {
        b[13] && (s.akas_in_hand[1] ==> s.tehai[13] > 1)
    } else if i == 22 {
        b[22] && (s.akas_in_hand[2] ==> s.tehai[22] > 1)
    } else {
        b[i]
    }
}

/// Folds 37-wide flags onto the 34 basic kinds.
pub open spec fn fold_akas(full: Seq<bool>, i: int) -> bool {
    full[i] || (i == 4 && full[34]) || (i == 13 && full[35]) || (i == 22 && full[36])
}

pub open spec fn fold_seq(full: Seq<bool>) -> Seq<bool> {
    Seq::new(34, |i: int| fold_akas(full, i))
}

/// The tiles that may be discarded now, red fives told apart.
pub open spec fn discard_aka_spec(s: PlayerState) -> Seq<bool> {
    if s.riichi_accepted[0] {
        Seq::new(37, |i: int| i == s.last_self_tsumo->0 as int)
    } else {
        let b = Seq::new(34, |i: int| base_legal(s, i));
        Seq::new(37, |i: int| split_akas(s, b, i))
    }
}

/// The kinds whose discard keeps the hand on course for tenpai.
pub open spec fn tenpai_discard(s: PlayerState, d: int) -> bool {
    if s.shanten == 1 {
        s.next_shanten_discards[d]
    } else {
        s.keep_shanten_discards[d]
    }
}

/// The concealed hand with one `d` taken out and one `t` put in.
pub open spec fn probe_hand_spec(s: PlayerState, d: int, t: int) -> Seq<u8> {
    let out = s.tehai@.update(d, (s.tehai[d] - 1) as u8);
    out.update(t, (out[t] + 1) as u8)
}

/// Drawing `t` after discarding `d` completes the hand.
pub open spec fn completes(s: PlayerState, p: TenpaiProbe, d: int, t: int) -> bool {
    t != d && s.tehai[t] != 4 && p.agari_after[d][t]
}

/// Discarding `d` leaves a tenpai that is not furiten and that a live tile
/// completes into a hand with a yaku.
pub open spec fn tenpai_eligible(s: PlayerState, p: TenpaiProbe, d: int) -> bool {
    &&& tenpai_discard(s, d)
    &&& !s.forbidden_tiles[d]
    &&& forall|t: int| 0 <= t < 34 && #[trigger] completes(s, p, d, t) ==> !s.discarded_tiles[t]
    &&& exists|t: int|
        0 <= t < 34 && #[trigger] completes(s, p, d, t) && s.tiles_seen[t] != 4
            && p.yaku_after[d][t]
}

/// The tiles whose discard leaves an unconditional tenpai, red fives told
/// apart.
pub open spec fn tenpai_aka_spec(s: PlayerState, p: TenpaiProbe) -> Seq<bool> {
    if s.tiles_left == 0 || s.shanten > 1 || (s.shanten == 1 && !s.has_next_shanten_discard) {
        Seq::new(37, |i: int| false)
    } else if s.last_self_tsumo is Some {
        let t = s.last_self_tsumo->0 as int;
        if s.waits[deaka(t)] {
            Seq::new(37, |i: int| false)
        } else if s.riichi_accepted[0] {
            Seq::new(37, |i: int| !s.at_furiten && i == t)
        } else {
            Seq::new(37, |i: int| split_akas(s, Seq::new(34, |d: int| tenpai_eligible(s, p, d)), i))
        }
    } else if p.hand_shanten == -1 {
        Seq::new(37, |i: int| false)
    } else {
        Seq::new(37, |i: int| split_akas(s, Seq::new(34, |d: int| tenpai_eligible(s, p, d)), i))
    }
}

/// Effective shanten at the current turn phase, given the shanten primitive's
/// value `hs` on the concealed hand.
pub open spec fn real_time_spec(s: PlayerState, hs: i8) -> i8 {
    if !s.last_cans.can_discard {
        s.shanten
    } else if s.shanten > 0 {
        if s.has_next_shanten_discard {
            (s.shanten - 1) as i8
        } else {
            s.shanten
        }
    } else if s.last_self_tsumo is Some {
        if s.waits[deaka(s.last_self_tsumo->0 as int)] {
            -1i8
        } else {
            0i8
        }
    } else {
        hs
    }
}

pub open spec fn held(s: PlayerState, i: int) -> int {
    if s.tehai[i] > 0 {
        1
    } else {
        0
    }
}

/// Number of distinct terminal and honor kinds in hand.
pub open spec fn yaokyuu_spec(s: PlayerState) -> int {
    held(s, 0) + held(s, 8) + held(s, 9) + held(s, 17) + held(s, 18) + held(s, 26) + held(s, 27)
        + held(s, 28) + held(s, 29) + held(s, 30) + held(s, 31) + held(s, 32) + held(s, 33)
}

/// Seat `i` (relative) ranks above this player with these scores; ties go
/// to the lower absolute seat.
pub open spec fn ranks_above(scores: [i32; 4], pid: int, i: int) -> bool {
    scores[i] > scores[0] || (scores[i] == scores[0] && (pid + i) % 4 < pid)
}

pub open spec fn one_if(b: bool) -> int {
    if b {
        1
    } else {
        0
    }
}

/// This player's rank (0 is first) with these scores.
pub open spec fn rank_spec(scores: [i32; 4], pid: int) -> int {
    one_if(ranks_above(scores, pid, 1)) + one_if(ranks_above(scores, pid, 2)) + one_if(
        ranks_above(scores, pid, 3),
    )
}

/// Scores after a notional haneman tsumo by the dealer `oya` (not this
/// player), bonus sticks and carried-over bets included.
pub open spec fn haneman_scores(s: PlayerState) -> [i32; 4] {
    let other = -3000 - s.honba * 300;
    let me = 12000 + s.kyotaku * 1000 + s.honba * 300;
    let dealer = -6000 - s.honba * 300;
    let delta = |i: int|
        if i == 0 {
            me
        } else if i == s.oya {
            dealer
        } else {
            other
        };
    [
        (s.scores[0] + delta(0)) as i32,
        (s.scores[1] + delta(1)) as i32,
        (s.scores[2] + delta(2)) as i32,
        (s.scores[3] + delta(3)) as i32,
    ]
}

/// The draw-call policy, given the shanten `hs` of the concealed hand. At
/// the final hand, a last-place non-dealer calls the draw only when even a
/// haneman tsumo by the dealer would leave them last.
pub open spec fn ryukyoku_policy(s: PlayerState, hs: i8) -> bool {
    if hs <= 2 {
        false
    } else if s.bakaze == WEST {
        true
    } else if s.is_all_last {
        if s.oya == 0 || s.rank < 3 {
            true
        } else {
            rank_spec(haneman_scores(s), s.player_id as int) == 3
        }
    } else if yaokyuu_spec(s) >= 10 {
        false
    } else if forall|i: int| 27 <= i < 34 ==> #[trigger] s.tehai[i] > 0 {
        false
    } else {
        true
    }
}

/// Whether the mode `is_ron` passes the legality check of a win.
pub open spec fn agari_allowed(s: PlayerState, is_ron: bool) -> bool {
    is_ron && s.last_cans.can_ron_agari || s.last_cans.can_tsumo_agari
}

pub open spec fn winning_tile_of(s: PlayerState, is_ron: bool) -> Option<u8> {
    if is_ron {
        s.last_kawa_tile
    } else {
        s.last_self_tsumo
    }
}

/// Bonus han from the situational checklist of the mode.
pub open spec fn additional_hans_spec(s: PlayerState, is_ron: bool) -> int {
    if is_ron {
        one_if(s.riichi_accepted[0]) + one_if(s.is_w_riichi) + one_if(s.at_ippatsu) + one_if(
            s.tiles_left == 0,
        ) + one_if(s.chankan_chance is Some)
    } else {
        one_if(s.riichi_accepted[0]) + one_if(s.is_w_riichi) + one_if(s.at_ippatsu) + one_if(
            s.is_menzen,
        ) + one_if(s.tiles_left == 0 && !s.at_rinshan) + one_if(s.at_rinshan)
    }
}

/// Copies of kind `k` that an uradora on `k` counts: in `tehai`, and four
/// for a concealed kan of `k`.
pub open spec fn ura_count(tehai: Seq<u8>, kans: Seq<u8>, k: int) -> int {
    tehai[k] + if kans.contains(k as u8) {
        4int
    } else {
        0
    }
}

pub open spec fn indicated_sum(tehai: Seq<u8>, kans: Seq<u8>, uras: Seq<u8>) -> int
    decreases uras.len(),
{
    if uras.len() == 0 {
        0
    } else {
        indicated_sum(tehai, kans, uras.drop_last()) + ura_count(
            tehai,
            kans,
            next_kind(deaka(uras.last() as int)),
        )
    }
}

/// The concealed hand once the winning tile is in it.
pub open spec fn win_tehai(s: PlayerState, is_ron: bool, w: int) -> Seq<u8> {
    if is_ron {
        s.tehai@.update(deaka(w), (s.tehai[deaka(w)] + 1) as u8)
    } else {
        s.tehai@
    }
}

pub open spec fn win_doras(s: PlayerState, is_ron: bool, w: int, uras: Seq<u8>) -> int {
    s.doras_owned[0] + (if is_ron {
        s.dora_factor[deaka(w)] + one_if(is_aka(w))
    } else {
        0
    }) + (if s.riichi_accepted[0] {
        indicated_sum(win_tehai(s, is_ron, w), s.ankan_overview[0]@, uras)
    } else {
        0
    })
}

/// `q` is the evaluator request for a win in mode `is_ron` with hidden
/// indicators `uras`, once the winning tile `w` is known.
pub open spec fn is_request(q: AgariRequest, s: PlayerState, is_ron: bool, w: int, uras: Seq<u8>) -> bool {
    &&& q.tehai@ == win_tehai(s, is_ron, w)
    &&& q.winning_tile == deaka(w)
    &&& q.is_ron == is_ron
    &&& q.additional_hans == additional_hans_spec(s, is_ron)
    &&& q.doras == win_doras(s, is_ron, w, uras)
}

/// The result of a win, given the evaluator's verdict `agari` on the request.
pub open spec fn agari_points_spec(s: PlayerState, is_ron: bool, agari: Option<Agari>) -> Result<
    Point,
    AgariError,
> {
    if !agari_allowed(s, is_ron) {
        Err(AgariError::CannotAgari)
    } else if !is_ron && s.can_w_riichi {
        Ok(yakuman_spec(s.oya == 0, 1))
    } else if winning_tile_of(s, is_ron) is None {
        Err(AgariError::NoWinningTile)
    } else if agari is None {
        Err(AgariError::NotHoraHand)
    } else {
        Ok(agari_point_spec(agari->0, s.oya == 0))
    }
}

pub proof fn lemma_indicated_sum_bound(tehai: Seq<u8>, kans: Seq<u8>, uras: Seq<u8>)
    requires
        tehai.len() == 34,
        forall|i: int| 0 <= i < 34 ==> #[trigger] tehai[i] <= 5,
        forall|k: int| 0 <= k < uras.len() ==> #[trigger] uras[k] < 37,
    ensures
        0 <= indicated_sum(tehai, kans, uras) <= 9 * uras.len(),
    decreases uras.len(),
{
    if uras.len() > 0 {
        lemma_indicated_sum_bound(tehai, kans, uras.drop_last());
        let k = next_kind(deaka(uras.last() as int));
        assert(0 <= k < 34);
        assert(tehai[k] <= 5);
    }
}

/// Seat (relative to this player) of the absolute seat `abs`.
pub open spec fn rel_spec(s: PlayerState, abs: int) -> int {
    (abs + 4 - s.player_id) % 4
}

/// The best-case point record of the win on offer, given the evaluator's
/// verdict on its request.
pub open spec fn best_win_point(s: PlayerState, agari: Agari) -> Point {
    if !s.last_cans.can_ron_agari && s.can_w_riichi {
        yakuman_spec(s.oya == 0, 1)
    } else {
        agari_point_spec(agari, s.oya == 0)
    }
}

/// What seat `i` pays for the win worth `p`.
pub open spec fn win_loss(s: PlayerState, p: Point, is_ron: bool, target: int, i: int) -> int {
    if is_ron {
        if i == target {
            p.ron + s.honba * 300
        } else {
            0
        }
    } else if i == 0 {
        0
    } else if i == s.oya {
        p.tsumo_oya + s.honba * 100
    } else {
        p.tsumo_ko + s.honba * 100
    }
}

/// What this player collects for the win worth `p`, pot included.
pub open spec fn win_gain(s: PlayerState, p: Point, is_ron: bool) -> int {
    (if is_ron {
        p.ron as int
    } else {
        p.tsumo_total_spec(false)
    }) + s.kyotaku * 1000 + s.honba * 300
}

pub open spec fn post_win_score(s: PlayerState, p: Point, is_ron: bool, target: int, i: int) -> int {
    s.scores[i] + (if i == 0 {
        win_gain(s, p, is_ron)
    } else {
        0
    }) - win_loss(s, p, is_ron, target, i)
}

pub open spec fn post_win_scores(s: PlayerState, p: Point, is_ron: bool, target: int) -> [i32; 4] {
    [
        post_win_score(s, p, is_ron, target, 0) as i32,
        post_win_score(s, p, is_ron, target, 1) as i32,
        post_win_score(s, p, is_ron, target, 2) as i32,
        post_win_score(s, p, is_ron, target, 3) as i32,
    ]
}

pub open spec fn all_below_30000(sc: [i32; 4]) -> bool {
    sc[0] < 30000 && sc[1] < 30000 && sc[2] < 30000 && sc[3] < 30000
}

/// The win policy when a win is on offer in mode `is_ron` against relative
/// seat `target`, given the evaluator's verdict on the best-case request.
pub open spec fn agari_policy(s: PlayerState, is_ron: bool, target: int, agari: Agari) -> bool {
    if !s.is_all_last || s.oya == 0 || s.rank < 3 {
        true
    } else if s.bakaze == WEST && s.kyoku < 3 {
        true
    } else if s.bakaze != WEST && all_below_30000(s.scores) {
        true
    } else {
        let exp = post_win_scores(s, best_win_point(s, agari), is_ron, target);
        all_below_30000(exp) || rank_spec(exp, s.player_id as int) < 3
    }
}

/// Number of entries of `kans` equal to `k`.
pub open spec fn count_in(kans: Seq<u8>, k: int) -> int
    decreases kans.len(),
{
    if kans.len() == 0 {
        0
    } else {
        count_in(kans.drop_last(), k) + one_if(kans.last() == k)
    }
}

/// Copies of each kind held, a concealed kan counting four.
pub open spec fn full_count(s: PlayerState, k: int) -> int {
    s.tehai[k] + 4 * count_in(s.ankan_overview[0]@, k)
}

/// The kinds below `n` held exactly `c` times, in increasing order.
pub open spec fn kinds_with(s: PlayerState, c: int, n: int) -> Seq<u8>
    decreases n,
{
    if n <= 0 {
        Seq::empty()
    } else if full_count(s, n - 1) == c {
        kinds_with(s, c, n - 1).push((n - 1) as u8)
    } else {
        kinds_with(s, c, n - 1)
    }
}

/// The kinds held at most `c` (and at least once) times, most copies
/// first, then by kind.
pub open spec fn kinds_by_count(s: PlayerState, c: int) -> Seq<u8>
    decreases c,
{
    if c <= 0 {
        Seq::empty()
    } else {
        kinds_with(s, c, 34) + kinds_by_count(s, c - 1)
    }
}

/// Most copies of a kind that a hand with its concealed kans can hold.
pub const MAX_FULL_COUNT: u8 = 20;

/// Hidden indicators picked greedily, up to `want`: for each kind of `order`
/// in turn, as many indicators pointing at it as are still unseen.
pub open spec fn greedy_uras(order: Seq<u8>, seen: Seq<u8>, want: nat) -> Seq<u8>
    decreases want, order.len(),
{
    if order.len() == 0 || want == 0 {
        Seq::empty()
    } else {
        let ind = prev_kind(order[0] as int);
        if seen[ind] >= 4 {
            greedy_uras(order.drop_first(), seen, want)
        } else {
            seq![ind as u8] + greedy_uras(
                order,
                seen.update(ind, (seen[ind] + 1) as u8),
                (want - 1) as nat,
            )
        }
    }
}

/// The hidden indicators that would make the win on offer worth the most.
pub open spec fn best_uras(s: PlayerState) -> Seq<u8> {
    greedy_uras(
        kinds_by_count(s, MAX_FULL_COUNT as int),
        s.tiles_seen@,
        s.dora_indicators@.len(),
    )
}

/// Draws left to this player, and whether the last of them is the last
/// tile of the wall.
pub open spec fn draws_ahead(s: PlayerState) -> (int, bool) {
    if s.last_cans.can_discard {
        (s.tiles_left as int / 4, s.tiles_left % 4 == 0)
    } else {
        let target = rel_spec(s, s.last_cans.target_actor as int);
        let left: int = if s.tiles_left >= 4 - target {
            s.tiles_left - (4 - target)
        } else {
            0
        };
        (left / 4, left % 4 == 0)
    }
}

pub open spec fn num_akas(s: PlayerState) -> int {
    one_if(s.akas_in_hand[0]) + one_if(s.akas_in_hand[1]) + one_if(s.akas_in_hand[2])
}

/// Dora held in the concealed hand: indicator matches and red fives.
pub open spec fn doras_in_tehai(s: PlayerState) -> int {
    indicated_sum(s.tehai@, Seq::empty(), s.dora_indicators@) + num_akas(s)
}

/// Dora held in melds and concealed kans.
pub open spec fn doras_in_fuuro(s: PlayerState) -> int {
    if s.is_menzen && s.ankan_overview[0]@.len() == 0 {
        0
    } else {
        s.doras_owned[0] - doras_in_tehai(s)
    }
}

/// The search input, once the checks have passed.
pub open spec fn is_query(q: SinglePlayerQuery, s: PlayerState, hs: i8) -> bool {
    let after_riichi = s.last_cans.can_discard && s.riichi_accepted[0];
    let t = s.last_self_tsumo->0 as int;
    &&& q.tiles_seen == s.tiles_seen
    &&& q.akas_seen == s.akas_seen
    &&& q.tehai_len_div3 == s.tehai_len_div3
    &&& q.tsumos_left == draws_ahead(s).0
    &&& q.calc_haitei == draws_ahead(s).1
    &&& q.cur_shanten == real_time_spec(s, hs)
    &&& q.num_doras_in_fuuro == doras_in_fuuro(s)
    &&& q.prefer_riichi == (s.scores[0] >= 1000)
    &&& q.calc_double_riichi == (s.last_cans.can_discard && s.can_w_riichi)
    &&& if after_riichi {
        &&& q.tehai@ == s.tehai@.update(deaka(t), (s.tehai[deaka(t)] - 1) as u8)
        &&& q.akas_in_hand@ == Seq::new(3, |k: int| s.akas_in_hand[k] && t != 34 + k)
        &&& !q.can_discard
        &&& q.relabel_first == Some(t as u8)
    } else {
        &&& q.tehai == s.tehai
        &&& q.akas_in_hand == s.akas_in_hand
        &&& q.can_discard == s.last_cans.can_discard
        &&& q.relabel_first is None
    }
}

/// Folds red-five flags onto their plain kinds.
fn fold_red_fives(full: &[bool; 37]) -> (r: [bool; 34])
    ensures
        r@ == fold_seq(full@),
{
    let mut ret = [false; 34];
    let mut i: usize = 0;
    while i < 34
        invariant
            i <= 34,
            forall|j: int| 0 <= j < i ==> ret@[j] == full@[j],
        decreases 34 - i,
    {
        ret[i] = full[i];
        i = i + 1;
    }
    ret[M5] = ret[M5] || full[M5R];
    ret[S5] = ret[S5] || full[S5R];
    ret[P5] = ret[P5] || full[P5R];
    assert(ret@ =~= fold_seq(full@));
    ret
}

impl PlayerState {
    /// Applies the red-five split to the first 34 flags of `ret`.
    fn split_red_fives(&self, ret: &mut [bool; 37])
        requires
            !old(ret)@[34],
            !old(ret)@[35],
            !old(ret)@[36],
        ensures
            final(ret)@ == Seq::new(37, |i: int| split_akas(*self, old(ret)@.subrange(0, 34), i)),
    {
        let ghost b = ret@.subrange(0, 34);
        if ret[M5] && self.akas_in_hand[0] {
            ret[M5R] = true;
            ret[M5] = self.tehai[M5] > 1;
        }
        if ret[P5] && self.akas_in_hand[1] {
            ret[P5R] = true;
            ret[P5] = self.tehai[P5] > 1;
        }
        if ret[S5] && self.akas_in_hand[2] {
            ret[S5R] = true;
            ret[S5] = self.tehai[S5] > 1;
        }
        assert(ret@ =~= Seq::new(37, |i: int| split_akas(*self, b, i)));
    }

    /// Whether discarding `discard`, a kind that passed the tenpai filter,
    /// leaves an unconditional tenpai. Furiten is checked before anything else
    /// for each completing draw, so that it retracts an earlier success.
    fn tenpai_after_discard(&self, probe: &TenpaiProbe, discard: usize) -> (r: bool)
        requires
            self.wf(),
            discard < 34,
            tenpai_discard(*self, discard as int),
            !self.forbidden_tiles[discard as int],
        ensures
            r == tenpai_eligible(*self, *probe, discard as int),
    {
        let mut tehai_3n1 = self.tehai;
        tehai_3n1[discard] = tehai_3n1[discard] - 1;
        let mut ret = false;
        let mut tsumo: usize = 0;
        while tsumo < 34
            invariant
                self.wf(),
                discard < 34,
                tsumo <= 34,
                forall|u: int| 0 <= u < 34 && u != discard ==> tehai_3n1[u] == self.tehai[u],
                forall|u: int|
                    0 <= u < tsumo && #[trigger] completes(*self, *probe, discard as int, u)
                        ==> !self.discarded_tiles[u],
                ret == exists|u: int|
                    0 <= u < tsumo && #[trigger] completes(*self, *probe, discard as int, u)
                        && self.tiles_seen[u] != 4 && probe.yaku_after[discard as int][u],
            decreases 34 - tsumo,
        {
            let seen = self.tiles_seen[tsumo];
            if tsumo == discard || tehai_3n1[tsumo] == 4 || !probe.agari_after[discard][tsumo] {
                tsumo = tsumo + 1;
                continue;
            }
            assert(completes(*self, *probe, discard as int, tsumo as int));
            if self.discarded_tiles[tsumo] {
                return false;
            }
            if seen == 4 || ret {
                tsumo = tsumo + 1;
                continue;
            }
            ret = probe.yaku_after[discard][tsumo];
            tsumo = tsumo + 1;
        }
        ret
    }

    /// The basic kinds whose discard leaves an unconditional tenpai; must be
    /// called at 3n+2.
    pub fn discard_candidates_with_unconditional_tenpai(&self, probe: &TenpaiProbe) -> (r: [bool; 34])
        requires
            self.wf(),
            self.last_cans.can_discard,
        ensures
            r@ == fold_seq(tenpai_aka_spec(*self, *probe)),
    {
        let full = self.discard_candidates_with_unconditional_tenpai_aka(probe);
        fold_red_fives(&full)
    }

    /// The tiles whose discard leaves a real tenpai: not furiten, with a live
    /// completing tile that gives a yaku whatever the riichi status. Must be
    /// called at 3n+2.
    pub fn discard_candidates_with_unconditional_tenpai_aka(&self, probe: &TenpaiProbe) -> (r: [bool; 37])
        requires
            self.wf(),
            self.last_cans.can_discard,
        ensures
            r@ == tenpai_aka_spec(*self, *probe),
    {
        let mut ret = [false; 37];
        if self.tiles_left == 0 || self.shanten > 1 || self.shanten == 1
            && !self.has_next_shanten_discard {
            assert(ret@ =~= tenpai_aka_spec(*self, *probe));
            return ret;
        }
        match self.last_self_tsumo {
            Some(last_self_tsumo) => {
                if self.waits[deaka_tile(last_self_tsumo) as usize] {
                    assert(ret@ =~= tenpai_aka_spec(*self, *probe));
                    return ret;
                }
                if self.riichi_accepted[0] {
                    if !self.at_furiten {
                        ret[last_self_tsumo as usize] = true;
                    }
                    assert(ret@ =~= tenpai_aka_spec(*self, *probe));
                    return ret;
                }
            },
            None => {
                if probe.hand_shanten == -1 {
                    assert(ret@ =~= tenpai_aka_spec(*self, *probe));
                    return ret;
                }
            },
        }
        let tenpai_discards = if self.shanten == 1 {
            self.next_shanten_discards
        } else {
            self.keep_shanten_discards
        };
        let mut discard: usize = 0;
        while discard < 34
            invariant
                self.wf(),
                discard <= 34,
                forall|j: int| 0 <= j < 34 ==> tenpai_discards[j] == tenpai_discard(*self, j),
                forall|j: int| 0 <= j < discard ==> ret@[j] == tenpai_eligible(*self, *probe, j),
                forall|j: int| discard <= j < 37 ==> !ret@[j],
            decreases 34 - discard,
        {
            if tenpai_discards[discard] && !self.forbidden_tiles[discard] {
                ret[discard] = self.tenpai_after_discard(probe, discard);
            }
            discard = discard + 1;
        }
        let ghost before = ret@;
        self.split_red_fives(&mut ret);
        assert(before.subrange(0, 34) =~= Seq::new(34, |d: int| tenpai_eligible(*self, *probe, d)));
        assert(ret@ =~= tenpai_aka_spec(*self, *probe));
        ret
    }

    fn held_kind(&self, i: usize) -> (r: u8)
        requires
            i < 34,
        ensures
            r == held(*self, i as int),
    {
        if self.tehai[i] > 0 {
            1
        } else {
            0
        }
    }

    /// Number of distinct terminal and honor kinds in hand.
    pub fn yaokyuu_kind_count(&self) -> (r: u8)
        ensures
            r == yaokyuu_spec(*self),
    {
        self.held_kind(0) + self.held_kind(8) + self.held_kind(9) + self.held_kind(17)
            + self.held_kind(18) + self.held_kind(26) + self.held_kind(27) + self.held_kind(28)
            + self.held_kind(29) + self.held_kind(30) + self.held_kind(31) + self.held_kind(32)
            + self.held_kind(33)
    }

    /// This player's rank (0 is first) if the scores were `scores`.
    pub fn get_rank(&self, scores: [i32; 4]) -> (r: u8)
        requires
            self.player_id < 4,
        ensures
            r == rank_spec(scores, self.player_id as int),
    {
        let pid = self.player_id;
        let mut rank: u8 = 0;
        if scores[1] > scores[0] || scores[1] == scores[0] && (pid + 1) % 4 < pid {
            rank = rank + 1;
        }
        if scores[2] > scores[0] || scores[2] == scores[0] && (pid + 2) % 4 < pid {
            rank = rank + 1;
        }
        if scores[3] > scores[0] || scores[3] == scores[0] && (pid + 3) % 4 < pid {
            rank = rank + 1;
        }
        rank
    }

    /// Whether to call an abortive draw, given `hand_shanten`, the shanten
    /// primitive's value on the concealed hand. Never when no draw can be
    /// called.
    pub fn rule_based_ryukyoku(&self, hand_shanten: i8) -> (r: bool)
        requires
            self.wf(),
        ensures
            r == (self.last_cans.can_ryukyoku && ryukyoku_policy(*self, hand_shanten)),
    {
        if !self.last_cans.can_ryukyoku {
            return false;
        }
        self.rule_based_ryukyoku_slow(hand_shanten)
    }

    fn rule_based_ryukyoku_slow(&self, hand_shanten: i8) -> (r: bool)
        requires
            self.wf(),
        ensures
            r == ryukyoku_policy(*self, hand_shanten),
    {
        if hand_shanten <= 2 {
            return false;
        }
        if self.bakaze == WEST {
            return true;
        }
        if self.is_all_last {
            if self.oya == 0 || self.rank < 3 {
                return true;
            }
            let honba = self.honba as i32;
            let mut scores = [-3000 - honba * 300; 4];
            scores[0] = 12000 + self.kyotaku as i32 * 1000 + honba * 300;
            scores[self.oya as usize] = -6000 - honba * 300;
            let mut i: usize = 0;
            while i < 4
                invariant
                    self.wf(),
                    i <= 4,
                    self.oya != 0,
                    forall|j: int|
                        0 <= j < 4 ==> #[trigger] scores[j] as int == (if j < i {
                            haneman_scores(*self)[j] as int
                        } else if j == 0 {
                            12000 + self.kyotaku * 1000 + self.honba * 300
                        } else if j == self.oya {
                            -6000 - self.honba * 300
                        } else {
                            -3000 - self.honba * 300
                        }),
                decreases 4 - i,
            {
                scores[i] = scores[i] + self.scores[i];
                i = i + 1;
            }
            assert(scores == haneman_scores(*self));
            return self.get_rank(scores) == 3;
        }
        if self.yaokyuu_kind_count() >= 10 {
            return false;
        }
        let mut i: usize = 27;
        while i < 34
            invariant
                27 <= i <= 34,
                hand_shanten > 2,
                self.bakaze != WEST,
                !self.is_all_last,
                yaokyuu_spec(*self) < 10,
                forall|j: int| 27 <= j < i ==> #[trigger] self.tehai[j] > 0,
            decreases 34 - i,
        {
            if self.tehai[i] == 0 {
                assert(!(forall|j: int| 27 <= j < 34 ==> #[trigger] self.tehai[j] > 0));
                return true;
            }
            i = i + 1;
        }
        false
    }

    /// Effective shanten at this turn phase, `-1` for a complete hand, given
    /// `hand_shanten`, the shanten primitive's value on the concealed hand
    /// (read only at 3n+2 after a call).
    pub fn real_time_shanten(&self, hand_shanten: i8) -> (r: i8)
        requires
            self.wf(),
        ensures
            r == real_time_spec(*self, hand_shanten),
    {
        if !self.last_cans.can_discard {
            return self.shanten;
        }
        if self.shanten > 0 {
            return if self.has_next_shanten_discard {
                self.shanten - 1
            } else {
                self.shanten
            };
        }
        if let Some(tile) = self.last_self_tsumo {
            return if self.waits[deaka_tile(tile) as usize] {
                -1
            } else {
                0
            };
        }
        hand_shanten
    }

    fn owns_ankan(&self, k: u8) -> (r: bool)
        ensures
            r == self.ankan_overview[0]@.contains(k),
    {
        let kans = &self.ankan_overview[0];
        let mut i: usize = 0;
        while i < kans.len()
            invariant
                i <= kans@.len(),
                kans == &self.ankan_overview[0],
                forall|j: int| 0 <= j < i ==> kans@[j] != k,
            decreases kans@.len() - i,
        {
            if kans[i] == k {
                return true;
            }
            i = i + 1;
        }
        false
    }

    /// What the hand evaluator is asked for a win in mode `is_ron`, with the
    /// hidden indicators `ura_indicators` counted under an accepted riichi;
    /// `None` when the winning tile cannot be found.
    pub fn agari_request(&self, is_ron: bool, ura_indicators: &[u8]) -> (r: Option<AgariRequest>)
        requires
            self.wf(),
            ura_indicators@.len() <= 5,
            forall|k: int| 0 <= k < ura_indicators@.len() ==> #[trigger] ura_indicators@[k] < 37,
        ensures
            match winning_tile_of(*self, is_ron) {
                Some(w) => r matches Some(q) && is_request(q, *self, is_ron, w as int, ura_indicators@),
                None => r is None,
            },
    {
        let winning_tile = match if is_ron {
            self.last_kawa_tile
        } else {
            self.last_self_tsumo
        } {
            Some(w) => w,
            None => return None,
        };
        proof {
            assert(winning_tile < 37) by {
                if is_ron {
                } else {
                }
            }
        }
        let additional_hans: u8 = if is_ron {
            self.riichi_accepted[0] as u8 + self.is_w_riichi as u8 + self.at_ippatsu as u8 + (
            self.tiles_left == 0) as u8 + self.chankan_chance.is_some() as u8
        } else {
            self.riichi_accepted[0] as u8 + self.is_w_riichi as u8 + self.at_ippatsu as u8
                + self.is_menzen as u8 + (self.tiles_left == 0 && !self.at_rinshan) as u8
                + self.at_rinshan as u8
        };
        let mut tehai = self.tehai;
        let mut final_doras_owned: u8 = self.doras_owned[0];
        let tid = deaka_tile(winning_tile);
        if is_ron {
            tehai[tid as usize] = tehai[tid as usize] + 1;
            final_doras_owned = final_doras_owned + self.dora_factor[tid as usize];
            if winning_tile >= 34 {
                final_doras_owned = final_doras_owned + 1;
            }
        }
        assert(tehai@ =~= win_tehai(*self, is_ron, winning_tile as int));
        if self.riichi_accepted[0] {
            let mut i: usize = 0;
            let mut ura: u8 = 0;
            while i < ura_indicators.len()
                invariant
                    self.wf(),
                    i <= ura_indicators@.len() <= 5,
                    forall|k: int| 0 <= k < ura_indicators@.len() ==> #[trigger] ura_indicators@[k] < 37,
                    forall|j: int| 0 <= j < 34 ==> #[trigger] tehai[j] <= 5,
                    tehai@ == win_tehai(*self, is_ron, winning_tile as int),
                    final_doras_owned <= 106,
                    ura as int == indicated_sum(tehai@, self.ankan_overview[0]@, ura_indicators@.subrange(0, i as int)),
                decreases ura_indicators@.len() - i,
            {
                proof {
                    lemma_indicated_sum_bound(tehai@, self.ankan_overview[0]@, ura_indicators@.subrange(0, i as int));
                    assert(ura_indicators@.subrange(0, i + 1).drop_last() =~= ura_indicators@.subrange(0, i as int));
                }
                let next = next_tile(deaka_tile(ura_indicators[i]));
                let mut count = tehai[next as usize];
                if self.owns_ankan(next) {
                    count = count + 4;
                }
                ura = ura + count;
                i = i + 1;
            }
            proof {
                assert(ura_indicators@.subrange(0, i as int) =~= ura_indicators@);
                lemma_indicated_sum_bound(tehai@, self.ankan_overview[0]@, ura_indicators@);
            }
            final_doras_owned = final_doras_owned + ura;
        }
        Some(AgariRequest {
            tehai,
            winning_tile: tid,
            is_ron,
            additional_hans,
            doras: final_doras_owned,
        })
    }

    /// Points of a win in mode `is_ron`, given the hand evaluator's verdict
    /// `agari` on `agari_request(is_ron, ..)` (`None`: not a valid scoring
    /// hand). A tsumo at the first uninterrupted draw is a single yakuman.
    pub fn agari_points(&self, is_ron: bool, agari: Option<Agari>) -> (r: Result<Point, AgariError>)
        requires
            self.wf(),
        ensures
            r == agari_points_spec(*self, is_ron, agari),
            r matches Ok(p) ==> p.bounded(),
    {
        if !(is_ron && self.last_cans.can_ron_agari || self.last_cans.can_tsumo_agari) {
            return Err(AgariError::CannotAgari);
        }
        if !is_ron && self.can_w_riichi {
            return Ok(Point::yakuman(self.oya == 0, 1));
        }
        let found = if is_ron {
            self.last_kawa_tile
        } else {
            self.last_self_tsumo
        };
        if found.is_none() {
            return Err(AgariError::NoWinningTile);
        }
        match agari {
            Some(a) => Ok(a.point(self.oya == 0)),
            None => Err(AgariError::NotHoraHand),
        }
    }

    /// Relative seat of the absolute seat `abs`.
    pub fn rel(&self, abs: u8) -> (r: usize)
        requires
            self.player_id < 4,
            abs < 4,
        ensures
            r == rel_spec(*self, abs as int),
            r < 4,
    {
        ((abs + 4 - self.player_id) % 4) as usize
    }

    /// Whether to take the win on offer, given `agari`, the hand evaluator's
    /// verdict on `best_agari_request()`. Never when no win can be declared.
    pub fn rule_based_agari(&self, agari: Agari) -> (r: bool)
        requires
            self.wf(),
            self.last_cans.can_ron_agari ==> self.last_kawa_tile is Some,
            self.last_cans.can_tsumo_agari ==> self.last_self_tsumo is Some,
        ensures
            r == (self.last_cans.can_agari_spec() && agari_policy(
                *self,
                self.last_cans.can_ron_agari,
                rel_spec(*self, self.last_cans.target_actor as int),
                agari,
            )),
    {
        if !self.last_cans.can_agari() {
            return false;
        }
        self.rule_based_agari_slow(
            self.last_cans.can_ron_agari,
            self.rel(self.last_cans.target_actor),
            agari,
        )
    }

    fn rule_based_agari_slow(&self, is_ron: bool, target_rel: usize, agari: Agari) -> (r: bool)
        requires
            self.wf(),
            self.last_cans.can_agari_spec(),
            self.last_cans.can_ron_agari ==> self.last_kawa_tile is Some,
            self.last_cans.can_tsumo_agari ==> self.last_self_tsumo is Some,
            is_ron == self.last_cans.can_ron_agari,
            target_rel < 4,
        ensures
            r == agari_policy(*self, is_ron, target_rel as int, agari),
    {
        if !self.is_all_last || self.oya == 0 || self.rank < 3 {
            return true;
        }
        if self.bakaze == WEST {
            if self.kyoku < 3 {
                return true;
            }
        } else if self.scores[0] < 30000 && self.scores[1] < 30000 && self.scores[2] < 30000
            && self.scores[3] < 30000 {
            return true;
        }
        let max_win_point = match self.agari_points(is_ron, Some(agari)) {
            Ok(p) => p,
            Err(_) => {
                assert(false);
                return false;
            },
        };
        assert(max_win_point == best_win_point(*self, agari));
        let honba = self.honba as i32;
        let mut exp_scores = self.scores;
        if is_ron {
            exp_scores[0] = exp_scores[0] + max_win_point.ron + self.kyotaku as i32 * 1000 + honba
                * 300;
            exp_scores[target_rel] = exp_scores[target_rel] - (max_win_point.ron + honba * 300);
        } else {
            exp_scores[0] = exp_scores[0] + max_win_point.tsumo_total(false) + self.kyotaku as i32
                * 1000 + honba * 300;
            let mut idx: usize = 1;
            while idx < 4
                invariant
                    self.wf(),
                    1 <= idx <= 4,
                    !is_ron,
                    honba == self.honba as i32,
                    max_win_point.bounded(),
                    exp_scores[0] == post_win_score(*self, max_win_point, is_ron, target_rel as int, 0),
                    forall|j: int|
                        1 <= j < 4 ==> #[trigger] exp_scores[j] == (if j < idx {
                            post_win_score(*self, max_win_point, is_ron, target_rel as int, j)
                        } else {
                            self.scores[j] as int
                        }),
                decreases 4 - idx,
            {
                if idx as u8 == self.oya {
                    exp_scores[idx] = exp_scores[idx] - (max_win_point.tsumo_oya + honba * 100);
                } else {
                    exp_scores[idx] = exp_scores[idx] - (max_win_point.tsumo_ko + honba * 100);
                }
                idx = idx + 1;
            }
        }
        assert(exp_scores =~= post_win_scores(*self, max_win_point, is_ron, target_rel as int));
        if exp_scores[0] < 30000 && exp_scores[1] < 30000 && exp_scores[2] < 30000 && exp_scores[3]
            < 30000 {
            return true;
        }
        self.get_rank(exp_scores) < 3
    }

    /// The kinds held, concealed kans counting four each, most copies first
    /// and then by kind.
    fn kinds_ordered_by_count(&self) -> (r: Vec<u8>)
        requires
            self.wf(),
        ensures
            r@ == kinds_by_count(*self, MAX_FULL_COUNT as int),
            forall|k: int| 0 <= k < r@.len() ==> #[trigger] r@[k] < 34,
    {
        let kans = &self.ankan_overview[0];
        let mut tehai_full: [u8; 34] = self.tehai;
        let mut i: usize = 0;
        while i < kans.len()
            invariant
                self.wf(),
                kans == &self.ankan_overview[0],
                i <= kans@.len(),
                forall|k: int|
                    0 <= k < 34 ==> #[trigger] tehai_full[k] == self.tehai[k] + 4 * count_in(
                        kans@.subrange(0, i as int),
                        k,
                    ),
                forall|k: int| 0 <= k < 34 ==> #[trigger] tehai_full[k] <= 4 + 4 * i,
            decreases kans@.len() - i,
        {
            proof {
                assert(kans@.subrange(0, i + 1).drop_last() =~= kans@.subrange(0, i as int));
            }
            let t = kans[i] as usize;
            tehai_full[t] = tehai_full[t] + 4;
            i = i + 1;
        }
        assert(kans@.subrange(0, i as int) =~= kans@);
        let mut order: Vec<u8> = Vec::new();
        let mut c: u8 = MAX_FULL_COUNT;
        while c > 0
            invariant
                self.wf(),
                c <= MAX_FULL_COUNT,
                forall|k: int| 0 <= k < 34 ==> #[trigger] tehai_full[k] == full_count(*self, k),
                order@ + kinds_by_count(*self, c as int) == kinds_by_count(*self, MAX_FULL_COUNT as int),
                forall|k: int| 0 <= k < order@.len() ==> #[trigger] order@[k] < 34,
            decreases c,
        {
            let ghost before = order@;
            let mut t: usize = 0;
            while t < 34
                invariant
                    t <= 34,
                    forall|k: int| 0 <= k < 34 ==> #[trigger] tehai_full[k] == full_count(*self, k),
                    order@ == before + kinds_with(*self, c as int, t as int),
                    forall|k: int| 0 <= k < order@.len() ==> #[trigger] order@[k] < 34,
                decreases 34 - t,
            {
                if tehai_full[t] == c {
                    order.push(t as u8);
                }
                t = t + 1;
            }
            assert(order@ + kinds_by_count(*self, c - 1) =~= before + kinds_by_count(*self, c as int));
            c = c - 1;
        }
        assert(order@ =~= order@ + kinds_by_count(*self, 0));
        order
    }

    /// Hidden indicators for the best case of a win under riichi: each
    /// pointing at the kinds held most, skipping indicators already seen four
    /// times, as many as there are dora indicators.
    pub fn max_ura_indicators(&self) -> (r: ArrayVec<[u8; 5]>)
        requires
            self.wf(),
        ensures
            indicator_list(r) == best_uras(*self),
            indicator_list(r).len() <= self.dora_indicators@.len(),
            forall|k: int| 0 <= k < indicator_list(r).len() ==> #[trigger] indicator_list(r)[k] < 34,
    {
        let order = self.kinds_ordered_by_count();
        let want = self.dora_indicators.len();
        let mut tiles_seen = self.tiles_seen;
        let mut ura_indicators = indicators_new();
        let mut i: usize = 0;
        proof {
            assert(order@.subrange(0, order@.len() as int) =~= order@);
            let g = greedy_uras(order@, self.tiles_seen@, want as nat);
            assert(indicator_list(ura_indicators) + g =~= g);
        }
        while i < order.len() && indicators_len(&ura_indicators) < want
            invariant
                i <= order@.len(),
                want <= 5,
                indicator_list(ura_indicators).len() <= want,
                forall|k: int| 0 <= k < order@.len() ==> #[trigger] order@[k] < 34,
                forall|k: int| 0 <= k < 34 ==> #[trigger] tiles_seen[k] <= 4,
                forall|k: int| 0 <= k < indicator_list(ura_indicators).len() ==> #[trigger] indicator_list(ura_indicators)[k] < 34,
                indicator_list(ura_indicators) + greedy_uras(
                    order@.subrange(i as int, order@.len() as int),
                    tiles_seen@,
                    (want - indicator_list(ura_indicators).len()) as nat,
                ) == greedy_uras(order@, self.tiles_seen@, want as nat),
            decreases (order@.len() - i) + (want - indicator_list(ura_indicators).len()),
        {
            let ghost rest = order@.subrange(i as int, order@.len() as int);
            let ura_ind = prev_tile(order[i]);
            if tiles_seen[ura_ind as usize] >= 4 {
                assert(rest.drop_first() =~= order@.subrange(i + 1, order@.len() as int));
                i = i + 1;
            } else {
                let ghost old_seen = tiles_seen@;
                indicators_push(&mut ura_indicators, ura_ind);
                tiles_seen[ura_ind as usize] = tiles_seen[ura_ind as usize] + 1;
                assert(tiles_seen@ =~= old_seen.update(ura_ind as int, (old_seen[ura_ind as int] + 1) as u8));
            }
        }
        proof {
            let rest = order@.subrange(i as int, order@.len() as int);
            assert(greedy_uras(rest, tiles_seen@, (want - indicator_list(ura_indicators).len()) as nat) =~= Seq::empty());
            assert(indicator_list(ura_indicators) =~= indicator_list(ura_indicators) + Seq::<u8>::empty());
        }
        ura_indicators
    }

    /// The evaluator request behind the win policy: the win on offer, with
    /// the best-case hidden indicators under an accepted riichi.
    pub fn best_agari_request(&self) -> (r: Option<AgariRequest>)
        requires
            self.wf(),
        ensures
            match winning_tile_of(*self, self.last_cans.can_ron_agari) {
                Some(w) => r matches Some(q) && is_request(
                    q,
                    *self,
                    self.last_cans.can_ron_agari,
                    w as int,
                    if self.riichi_accepted[0] {
                        best_uras(*self)
                    } else {
                        Seq::empty()
                    },
                ),
                None => r is None,
            },
    {
        let ura_indicators = if self.riichi_accepted[0] {
            self.max_ura_indicators()
        } else {
            indicators_new()
        };
        self.agari_request(self.last_cans.can_ron_agari, indicators_slice(&ura_indicators))
    }

    /// The input of the expected-value search from this point, given
    /// `hand_shanten`, the shanten primitive's value on the concealed hand.
    /// Under an accepted riichi at a discard, the drawn tile is taken out
    /// first, as the only discard there is.
    pub fn single_player_tables(&self, hand_shanten: i8) -> (r: Result<SinglePlayerQuery, TablesError>)
        requires
            self.wf(),
            self.tiles_left >= 4 && real_time_spec(*self, hand_shanten) >= 0 && draws_ahead(
                *self,
            ).0 >= 1 ==> doras_in_fuuro(*self) >= 0,
        ensures
            self.tiles_left < 4 ==> r == Err::<SinglePlayerQuery, TablesError>(
                TablesError::NotEnoughTsumo,
            ),
            self.tiles_left >= 4 && real_time_spec(*self, hand_shanten) < 0 ==> r == Err::<
                SinglePlayerQuery,
                TablesError,
            >(TablesError::AlreadyAgari),
            self.tiles_left >= 4 && real_time_spec(*self, hand_shanten) >= 0 && draws_ahead(
                *self,
            ).0 < 1 ==> r == Err::<SinglePlayerQuery, TablesError>(TablesError::NotEnoughTsumo),
            self.tiles_left >= 4 && real_time_spec(*self, hand_shanten) >= 0 && draws_ahead(
                *self,
            ).0 >= 1 ==> (r matches Ok(q) && is_query(q, *self, hand_shanten)),
    {
        if self.tiles_left < 4 {
            return Err(TablesError::NotEnoughTsumo);
        }
        let cur_shanten = self.real_time_shanten(hand_shanten);
        if cur_shanten < 0 {
            return Err(TablesError::AlreadyAgari);
        }
        let mut can_discard = self.last_cans.can_discard;
        let (tsumos_left, calc_haitei) = if can_discard {
            (self.tiles_left / 4, self.tiles_left % 4 == 0)
        } else {
            let target = self.rel(self.last_cans.target_actor) as u8;
            let tiles_left_at_next_tsumo = if self.tiles_left >= 4 - target {
                self.tiles_left - (4 - target)
            } else {
                0
            };
            (tiles_left_at_next_tsumo / 4, tiles_left_at_next_tsumo % 4 == 0)
        };
        if tsumos_left < 1 {
            return Err(TablesError::NotEnoughTsumo);
        }
        let num_doras_in_fuuro: u8 = if self.is_menzen && self.ankan_overview[0].len() == 0 {
            0
        } else {
            let mut in_tehai: u8 = 0;
            let mut i: usize = 0;
            while i < self.dora_indicators.len()
                invariant
                    self.wf(),
                    i <= self.dora_indicators@.len(),
                    in_tehai as int == indicated_sum(
                        self.tehai@,
                        Seq::empty(),
                        self.dora_indicators@.subrange(0, i as int),
                    ),
                decreases self.dora_indicators@.len() - i,
            {
                proof {
                    lemma_indicated_sum_bound(
                        self.tehai@,
                        Seq::empty(),
                        self.dora_indicators@.subrange(0, i as int),
                    );
                    assert(self.dora_indicators@.subrange(0, i + 1).drop_last()
                        =~= self.dora_indicators@.subrange(0, i as int));
                }
                let next = next_tile(deaka_tile(self.dora_indicators[i]));
                in_tehai = in_tehai + self.tehai[next as usize];
                i = i + 1;
            }
            assert(self.dora_indicators@.subrange(0, i as int) =~= self.dora_indicators@);
            let num_akas: u8 = self.akas_in_hand[0] as u8 + self.akas_in_hand[1] as u8
                + self.akas_in_hand[2] as u8;
            self.doras_owned[0] - in_tehai - num_akas
        };
        let prefer_riichi = self.scores[0] >= 1000;
        let calc_double_riichi = can_discard && self.can_w_riichi;
        let mut tehai = self.tehai;
        let mut akas_in_hand = self.akas_in_hand;
        let is_discard_after_riichi = can_discard && self.riichi_accepted[0];
        let mut relabel_first: Option<u8> = None;
        if is_discard_after_riichi {
            let last_tsumo = self.last_self_tsumo.unwrap();
            let tid = deaka_tile(last_tsumo) as usize;
            tehai[tid] = tehai[tid] - 1;
            if last_tsumo == 34 {
                akas_in_hand[0] = false;
            } else if last_tsumo == 35 {
                akas_in_hand[1] = false;
            } else if last_tsumo == 36 {
                akas_in_hand[2] = false;
            }
            can_discard = false;
            relabel_first = Some(last_tsumo);
            assert(tehai@ =~= self.tehai@.update(tid as int, (self.tehai[tid as int] - 1) as u8));
            assert(akas_in_hand@ =~= Seq::new(3, |k: int| self.akas_in_hand[k] && last_tsumo != 34 + k));
        }
        Ok(SinglePlayerQuery {
            tehai,
            akas_in_hand,
            tiles_seen: self.tiles_seen,
            akas_seen: self.akas_seen,
            tehai_len_div3: self.tehai_len_div3,
            can_discard,
            tsumos_left,
            cur_shanten,
            calc_haitei,
            num_doras_in_fuuro,
            prefer_riichi,
            calc_double_riichi,
            relabel_first,
        })
    }

    /// The concealed hand with one `d` taken out and one `t` put in: the
    /// hand that `TenpaiProbe` entry `[d][t]` speaks of.
    pub fn probe_hand(&self, d: usize, t: usize) -> (r: [u8; 34])
        requires
            self.wf(),
            d < 34,
            t < 34,
            self.tehai[d as int] > 0,
        ensures
            r@ == probe_hand_spec(*self, d as int, t as int),
    {
        let mut tehai = self.tehai;
        tehai[d] = tehai[d] - 1;
        tehai[t] = tehai[t] + 1;
        tehai
    }

    /// Number of open and concealed kans of this player.
    pub fn kans_count(&self) -> (r: usize)
        requires
            self.wf(),
        ensures
            r == self.minkans@.len() + self.ankans@.len(),
    {
        self.minkans.len() + self.ankans.len()
    }

    /// The basic kinds that may be discarded now; must be called at 3n+2.
    pub fn discard_candidates(&self) -> (r: [bool; 34])
        requires
            self.wf(),
            self.last_cans.can_discard,
        ensures
            r@ == fold_seq(discard_aka_spec(*self)),
    {
        let full = self.discard_candidates_aka();
        fold_red_fives(&full)
    }

    /// The tiles that may be discarded now, red fives told apart; must be
    /// called at 3n+2.
    pub fn discard_candidates_aka(&self) -> (r: [bool; 37])
        requires
            self.wf(),
            self.last_cans.can_discard,
        ensures
            r@ == discard_aka_spec(*self),
    {
        let mut ret = [false; 37];
        if self.riichi_accepted[0] {
            let last_self_tsumo = self.last_self_tsumo.unwrap();
            ret[last_self_tsumo as usize] = true;
            assert(ret@ =~= discard_aka_spec(*self));
            return ret;
        }
        let mut i: usize = 0;
        while i < 34
            invariant
                i <= 34,
                !self.riichi_accepted[0],
                forall|j: int| 0 <= j < i ==> ret@[j] == base_legal(*self, j),
                forall|j: int| i <= j < 37 ==> !ret@[j],
            decreases 34 - i,
        {
            if self.tehai[i] != 0 {
                ret[i] = if self.riichi_declared[0] {
                    if self.shanten == 1 {
                        self.next_shanten_discards[i]
                    } else {
                        self.keep_shanten_discards[i]
                    }
                } else {
                    !self.forbidden_tiles[i]
                };
            }
            i = i + 1;
        }
        let ghost before = ret@;
        self.split_red_fives(&mut ret);
        assert(before.subrange(0, 34) =~= Seq::new(34, |i: int| base_legal(*self, i)));
        ret
    }
}

} // verus!
