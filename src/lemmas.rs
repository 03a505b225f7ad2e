//! Facts that tie the helpers' contracts together.
use crate::agent_helper::{
    base_legal, completes, discard_aka_spec, fold_seq, one_if, real_time_spec, ryukyoku_policy,
    tenpai_aka_spec, tenpai_discard, tenpai_eligible,
};
use crate::state::{PlayerState, TenpaiProbe};
use crate::tile::deaka;
use vstd::prelude::*;

verus! {

/// Under an accepted riichi, the only legal discard is the tile just drawn.
pub proof fn lemma_riichi_discards_drawn_tile(s: PlayerState)
    requires
        s.wf(),
        s.last_cans.can_discard,
        s.riichi_accepted[0],
    ensures
        forall|i: int| 0 <= i < 37 ==> discard_aka_spec(s)[i] == (i == s.last_self_tsumo->0),
        forall|i: int|
            0 <= i < 34 ==> fold_seq(discard_aka_spec(s))[i] == (i == deaka(
                s.last_self_tsumo->0 as int,
            )),
{
}

/// A plain five is offered as a discard only while a plain copy is held.
pub proof fn lemma_plain_five_needs_plain_copy(s: PlayerState)
    requires
        s.wf(),
        s.last_cans.can_discard,
    ensures
        discard_aka_spec(s)[4] ==> s.tehai[4] > one_if(s.akas_in_hand[0]),
        discard_aka_spec(s)[13] ==> s.tehai[13] > one_if(s.akas_in_hand[1]),
        discard_aka_spec(s)[22] ==> s.tehai[22] > one_if(s.akas_in_hand[2]),
{
}

/// Every discard that leaves an unconditional tenpai is a legal discard.
pub proof fn lemma_tenpai_discards_are_legal(s: PlayerState, p: TenpaiProbe)
    requires
        s.wf(),
        s.last_cans.can_discard,
    ensures
        forall|i: int| 0 <= i < 37 ==> #[trigger] tenpai_aka_spec(s, p)[i] ==> discard_aka_spec(s)[i],
        forall|i: int|
            0 <= i < 34 ==> #[trigger] fold_seq(tenpai_aka_spec(s, p))[i] ==> fold_seq(
                discard_aka_spec(s),
            )[i],
{
    assert forall|d: int| 0 <= d < 34 && tenpai_eligible(s, p, d) implies base_legal(s, d) by {
        assert(tenpai_discard(s, d));
        assert(s.keep_shanten_discards[d] || s.next_shanten_discards[d]);
        assert(s.tehai[d] > 0) by {
            assert(s.wf());
            assert(s.keep_shanten_discards[d] ==> s.tehai[d] > 0);
        }
    }
}

/// A discard is never offered as tenpai-safe when a tile that completes the
/// hand after it was discarded before.
pub proof fn lemma_furiten_discard_not_offered(s: PlayerState, p: TenpaiProbe)
    requires
        s.wf(),
        s.last_cans.can_discard,
        !s.riichi_accepted[0],
    ensures
        forall|d: int, t: int|
            0 <= d < 34 && 0 <= t < 34 && s.discarded_tiles[t] && #[trigger] completes(s, p, d, t)
                ==> !fold_seq(tenpai_aka_spec(s, p))[d],
{
}

/// The effective shanten is the primitive's value at 3n+1, where the cached
/// value is exact, and at 3n+2 after a call, where the cached value was
/// clamped to zero.
pub proof fn lemma_real_time_matches_primitive(s: PlayerState, hand_shanten: i8)
    requires
        s.wf(),
        !s.last_cans.can_discard ==> s.shanten == hand_shanten,
    ensures
        !s.last_cans.can_discard ==> real_time_spec(s, hand_shanten) == hand_shanten,
        s.last_cans.can_discard && s.last_self_tsumo is None && s.shanten == 0 ==> real_time_spec(
            s,
            hand_shanten,
        ) == hand_shanten,
{
}

/// No abortive draw is called with a hand at two shanten or better, whatever
/// the round and the scores.
pub proof fn lemma_no_draw_call_near_tenpai(s: PlayerState, hand_shanten: i8)
    requires
        hand_shanten <= 2,
    ensures
        !(s.last_cans.can_ryukyoku && ryukyoku_policy(s, hand_shanten)),
{
}

} // verus!
