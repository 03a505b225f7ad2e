//! One player's frozen view of the game at a decision point.
use vstd::prelude::*;

verus! {

/// Legality flags of the current decision point.
#[derive(Clone, Copy, Debug, PartialEq, Eq, Structural)]
pub struct ActionCandidate {
    pub can_discard: bool,
    pub can_ron_agari: bool,
    pub can_tsumo_agari: bool,
    pub can_ryukyoku: bool,
    /// Absolute seat of the player whose tile can be ronned.
    pub target_actor: u8,
}

impl ActionCandidate {
    pub open spec fn can_agari_spec(self) -> bool {
        self.can_ron_agari || self.can_tsumo_agari
    }

    pub fn can_agari(&self) -> (r: bool)
        ensures
            r == self.can_agari_spec(),
    {
        self.can_ron_agari || self.can_tsumo_agari
    }
}

/// What the shanten primitive and the hand evaluator say of the hands that
/// the tenpai filter looks at.
#[derive(Clone, Copy, Debug)]
pub struct TenpaiProbe {
    /// Shanten of the concealed hand as it stands (`-1`: complete).
    pub hand_shanten: i8,
    /// `agari_after[d][t]`: the hand `probe_hand(d, t)`, with one `d` taken
    /// out and one `t` put in, is complete (its shanten is `-1`).
    pub agari_after: [[bool; 34]; 34],
    /// `yaku_after[d][t]`: that complete hand, won by ron on `t`, has a yaku.
    pub yaku_after: [[bool; 34]; 34],
}

/// What the hand evaluator is asked about a win: the completed concealed
/// hand, the winning kind, the mode, and the bonus han and dora that come on
/// top of the yaku.
#[derive(Clone, Copy, Debug)]
pub struct AgariRequest {
    pub tehai: [u8; 34],
    pub winning_tile: u8,
    pub is_ron: bool,
    pub additional_hans: u8,
    pub doras: u8,
}

#[derive(Clone, Copy, Debug, PartialEq, Eq, Structural)]
pub enum AgariError {
    /// No legal ron or tsumo in this mode.
    CannotAgari,
    /// The winning tile cannot be found in the state.
    NoWinningTile,
    /// The evaluator found no valid scoring hand.
    NotHoraHand,
}

/// The input of the expected-value search over future draws.
#[derive(Clone, Copy, Debug)]
pub struct SinglePlayerQuery {
    pub tehai: [u8; 34],
    pub akas_in_hand: [bool; 3],
    pub tiles_seen: [u8; 34],
    pub akas_seen: [bool; 3],
    pub tehai_len_div3: u8,
    pub can_discard: bool,
    pub tsumos_left: u8,
    pub cur_shanten: i8,
    pub calc_haitei: bool,
    pub num_doras_in_fuuro: u8,
    pub prefer_riichi: bool,
    pub calc_double_riichi: bool,
    /// The tile that the first entry of the search's result stands for, when
    /// riichi locks the discard to the tile just drawn.
    pub relabel_first: Option<u8>,
}

#[derive(Clone, Copy, Debug, PartialEq, Eq, Structural)]
pub enum TablesError {
    /// Fewer than one more self-draw remains.
    NotEnoughTsumo,
    /// The hand is already complete.
    AlreadyAgari,
}

/// Upper bound of the absolute value of a score.
pub const MAX_SCORE: i32 = 1_000_000_000;

/// Tiles are identified as in `crate::tile`; arrays of 34 are indexed by
/// basic kind. Seat-indexed arrays are relative to this player (index 0).
#[derive(Clone, Debug)]
pub struct PlayerState {
    pub player_id: u8,
    /// Concealed tiles, counted per basic kind (red fives included).
    pub tehai: [u8; 34],
    pub tehai_len_div3: u8,
    pub chis: Vec<u8>,
    pub pons: Vec<u8>,
    pub minkans: Vec<u8>,
    pub ankans: Vec<u8>,
    /// Kinds of the concealed kans of each player.
    pub ankan_overview: [Vec<u8>; 4],
    pub is_menzen: bool,
    pub keep_shanten_discards: [bool; 34],
    pub next_shanten_discards: [bool; 34],
    pub has_next_shanten_discard: bool,
    pub forbidden_tiles: [bool; 34],
    pub discarded_tiles: [bool; 34],
    pub waits: [bool; 34],
    pub at_furiten: bool,
    pub riichi_declared: [bool; 4],
    pub riichi_accepted: [bool; 4],
    pub is_w_riichi: bool,
    pub at_ippatsu: bool,
    pub can_w_riichi: bool,
    pub last_self_tsumo: Option<u8>,
    pub last_kawa_tile: Option<u8>,
    pub at_rinshan: bool,
    pub chankan_chance: Option<u8>,
    pub tiles_left: u8,
    pub tiles_seen: [u8; 34],
    pub akas_seen: [bool; 3],
    pub dora_indicators: Vec<u8>,
    pub doras_owned: [u8; 4],
    pub dora_factor: [u8; 34],
    pub akas_in_hand: [bool; 3],
    /// Round wind, as a tile (`E` or `S` or `W`).
    pub bakaze: u8,
    pub jikaze: u8,
    pub kyoku: u8,
    pub honba: u8,
    pub kyotaku: u8,
    /// Seat of the dealer, relative to this player.
    pub oya: u8,
    pub scores: [i32; 4],
    pub rank: u8,
    pub is_all_last: bool,
    pub last_cans: ActionCandidate,
    /// Cached shanten of the hand, clamped to be at least zero after a call.
    pub shanten: i8,
}

/// Whether the tile `t` is held in hand, as the exact tile (a plain five
/// needs a plain copy beside any red one).
pub open spec fn holds_tile(s: PlayerState, t: int) -> bool {
    if t == 34 {
        s.akas_in_hand[0]
    } else if t == 35 {
        s.akas_in_hand[1]
    } else if t == 36 {
        s.akas_in_hand[2]
    } else if t == 4 {
        s.tehai[4] > (if s.akas_in_hand[0] { 1int } else { 0 })
    } else if t == 13 {
        s.tehai[13] > (if s.akas_in_hand[1] { 1int } else { 0 })
    } else if t == 22 {
        s.tehai[22] > (if s.akas_in_hand[2] { 1int } else { 0 })
    } else {
        0 <= t < 34 && s.tehai[t] > 0
    }
}

impl PlayerState {
    /// The consistency that the turn engine keeps between the fields.
    pub open spec fn wf(self) -> bool {
        &&& self.player_id < 4
        &&& self.oya < 4
        &&& self.last_cans.target_actor < 4
        &&& forall|i: int| 0 <= i < 34 ==> #[trigger] self.tehai[i] <= 4
        &&& forall|i: int| 0 <= i < 34 ==> #[trigger] self.tiles_seen[i] <= 4
        &&& forall|i: int| 0 <= i < 34 ==> #[trigger] self.dora_factor[i] <= 5
        &&& forall|i: int|
            0 <= i < 34 ==> (#[trigger] self.keep_shanten_discards[i]
                || self.next_shanten_discards[i]) ==> self.tehai[i] > 0
        &&& self.akas_in_hand[0] ==> self.tehai[4] > 0
        &&& self.akas_in_hand[1] ==> self.tehai[13] > 0
        &&& self.akas_in_hand[2] ==> self.tehai[22] > 0
        &&& forall|k: int|
            0 <= k < self.ankan_overview[0]@.len() ==> #[trigger] self.ankan_overview[0]@[k] < 34
        &&& self.ankan_overview[0]@.len() <= 4
        &&& self.dora_indicators@.len() <= 5
        &&& forall|k: int|
            0 <= k < self.dora_indicators@.len() ==> #[trigger] self.dora_indicators@[k] < 37
        &&& self.doras_owned[0] <= 100
        &&& self.minkans@.len() <= 4
        &&& self.ankans@.len() <= 4
        &&& forall|i: int| 0 <= i < 4 ==> -MAX_SCORE <= #[trigger] self.scores[i] <= MAX_SCORE
        &&& self.last_self_tsumo matches Some(t) ==> t < 37
        &&& self.last_kawa_tile matches Some(t) ==> t < 37
        &&& self.last_cans.can_discard && self.riichi_accepted[0] ==> self.last_self_tsumo
            is Some
        &&& self.last_cans.can_discard ==> (self.last_self_tsumo matches Some(t) ==> holds_tile(
            self,
            t as int,
        ))
    }
}

} // verus!
