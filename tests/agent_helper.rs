use libriichi::point::{Agari, Point};
use libriichi::state::{
    ActionCandidate, AgariError, PlayerState, SinglePlayerQuery, TablesError, TenpaiProbe,
};

fn base_state() -> PlayerState {
    PlayerState {
        player_id: 0,
        tehai: [0; 34],
        tehai_len_div3: 4,
        chis: Vec::new(),
        pons: Vec::new(),
        minkans: Vec::new(),
        ankans: Vec::new(),
        ankan_overview: [Vec::new(), Vec::new(), Vec::new(), Vec::new()],
        is_menzen: true,
        keep_shanten_discards: [false; 34],
        next_shanten_discards: [false; 34],
        has_next_shanten_discard: false,
        forbidden_tiles: [false; 34],
        discarded_tiles: [false; 34],
        waits: [false; 34],
        at_furiten: false,
        riichi_declared: [false; 4],
        riichi_accepted: [false; 4],
        is_w_riichi: false,
        at_ippatsu: false,
        can_w_riichi: false,
        last_self_tsumo: None,
        last_kawa_tile: None,
        at_rinshan: false,
        chankan_chance: None,
        tiles_left: 50,
        tiles_seen: [0; 34],
        akas_seen: [false; 3],
        dora_indicators: Vec::new(),
        doras_owned: [0; 4],
        dora_factor: [0; 34],
        akas_in_hand: [false; 3],
        bakaze: 27,
        jikaze: 27,
        kyoku: 0,
        honba: 0,
        kyotaku: 0,
        oya: 0,
        scores: [25000; 4],
        rank: 0,
        is_all_last: false,
        last_cans: ActionCandidate {
            can_discard: false,
            can_ron_agari: false,
            can_tsumo_agari: false,
            can_ryukyoku: false,
            target_actor: 0,
        },
        shanten: 1,
    }
}

fn discard_state() -> PlayerState {
    let mut s = base_state();
    s.last_cans.can_discard = true;
    s
}

fn empty_probe() -> TenpaiProbe {
    TenpaiProbe {
        hand_shanten: 0,
        agari_after: [[false; 34]; 34],
        yaku_after: [[false; 34]; 34],
    }
}

fn set_bits(bits: &[usize]) -> Vec<usize> {
    bits.to_vec()
}

fn true_indices(flags: &[bool]) -> Vec<usize> {
    flags
        .iter()
        .enumerate()
        .filter(|(_, b)| **b)
        .map(|(i, _)| i)
        .collect()
}

#[test]
fn kans_are_counted_open_and_concealed() {
    let mut s = base_state();
    s.minkans = vec![3];
    s.ankans = vec![27, 31];
    assert_eq!(s.kans_count(), 3);
}

#[test]
fn discard_candidates_skip_forbidden_and_split_red_five() {
    let mut s = discard_state();
    s.tehai[0] = 1;
    s.tehai[4] = 2;
    s.tehai[27] = 1;
    s.akas_in_hand[0] = true;
    s.forbidden_tiles[27] = true;
    let aka = s.discard_candidates_aka();
    assert_eq!(true_indices(&aka), set_bits(&[0, 4, 34]));
    let plain = s.discard_candidates();
    assert_eq!(true_indices(&plain), set_bits(&[0, 4]));
}

#[test]
fn discard_candidates_lone_red_five_hides_plain_five() {
    let mut s = discard_state();
    s.tehai[4] = 1;
    s.tehai[10] = 1;
    s.akas_in_hand[0] = true;
    let aka = s.discard_candidates_aka();
    assert!(!aka[4]);
    assert!(aka[34]);
    assert!(aka[10]);
    assert!(s.discard_candidates()[4]);
}

#[test]
fn discard_candidates_under_riichi_only_drawn_tile() {
    let mut s = discard_state();
    s.tehai[13] = 2;
    s.tehai[0] = 3;
    s.akas_in_hand[1] = true;
    s.riichi_accepted[0] = true;
    s.last_self_tsumo = Some(35);
    assert_eq!(true_indices(&s.discard_candidates_aka()), set_bits(&[35]));
    assert_eq!(true_indices(&s.discard_candidates()), set_bits(&[13]));
}

#[test]
fn discard_candidates_while_declaring_riichi() {
    let mut s = discard_state();
    s.tehai[0] = 1;
    s.tehai[1] = 1;
    s.tehai[2] = 1;
    s.riichi_declared[0] = true;
    s.next_shanten_discards[1] = true;
    s.keep_shanten_discards[0] = true;
    s.shanten = 1;
    assert_eq!(true_indices(&s.discard_candidates()), set_bits(&[1]));
    s.shanten = 0;
    assert_eq!(true_indices(&s.discard_candidates()), set_bits(&[0]));
}

#[test]
fn plain_five_never_offered_without_plain_copy() {
    for count in 1..=4u8 {
        for aka in [false, true] {
            let mut s = discard_state();
            s.tehai[22] = count;
            s.akas_in_hand[2] = aka;
            let r = s.discard_candidates_aka();
            let plain = count - if aka { 1 } else { 0 };
            assert!(!(r[22] && plain == 0));
        }
    }
}

fn tenpai_state() -> (PlayerState, TenpaiProbe) {
    let mut s = discard_state();
    s.shanten = 0;
    s.tehai[0] = 1;
    s.tehai[2] = 1;
    s.tehai[5] = 1;
    s.tehai[4] = 1;
    s.akas_in_hand[0] = true;
    s.keep_shanten_discards[0] = true;
    s.keep_shanten_discards[5] = true;
    s.keep_shanten_discards[4] = true;
    s.last_self_tsumo = Some(2);
    let mut p = empty_probe();
    p.agari_after[0][8] = true;
    p.yaku_after[0][8] = true;
    p.agari_after[5][3] = true;
    p.yaku_after[5][3] = true;
    p.agari_after[5][20] = true;
    s.discarded_tiles[20] = true;
    p.agari_after[4][9] = true;
    p.yaku_after[4][9] = true;
    (s, p)
}

#[test]
fn unconditional_tenpai_furiten_retracts_earlier_success() {
    let (s, p) = tenpai_state();
    let r = s.discard_candidates_with_unconditional_tenpai_aka(&p);
    assert!(r[0]);
    assert!(!r[5]);
    assert!(r[34]);
    assert!(!r[4]);
    assert_eq!(
        true_indices(&s.discard_candidates_with_unconditional_tenpai(&p)),
        set_bits(&[0, 4])
    );
}

#[test]
fn unconditional_tenpai_needs_a_live_tile() {
    let (mut s, p) = tenpai_state();
    s.tiles_seen[8] = 4;
    let r = s.discard_candidates_with_unconditional_tenpai(&p);
    assert!(!r[0]);
}

#[test]
fn unconditional_tenpai_needs_a_yaku() {
    let (s, mut p) = tenpai_state();
    p.yaku_after[0][8] = false;
    let r = s.discard_candidates_with_unconditional_tenpai(&p);
    assert!(!r[0]);
}

#[test]
fn unconditional_tenpai_skips_forbidden() {
    let (mut s, p) = tenpai_state();
    s.forbidden_tiles[0] = true;
    assert!(!s.discard_candidates_with_unconditional_tenpai(&p)[0]);
}

#[test]
fn unconditional_tenpai_early_exits() {
    let (mut s, p) = tenpai_state();
    s.tiles_left = 0;
    assert!(true_indices(&s.discard_candidates_with_unconditional_tenpai_aka(&p)).is_empty());

    let (mut s, p) = tenpai_state();
    s.shanten = 2;
    assert!(true_indices(&s.discard_candidates_with_unconditional_tenpai_aka(&p)).is_empty());

    let (mut s, p) = tenpai_state();
    s.shanten = 1;
    s.has_next_shanten_discard = false;
    assert!(true_indices(&s.discard_candidates_with_unconditional_tenpai_aka(&p)).is_empty());

    let (mut s, p) = tenpai_state();
    s.waits[2] = true;
    assert!(true_indices(&s.discard_candidates_with_unconditional_tenpai_aka(&p)).is_empty());

    let (mut s, mut p) = tenpai_state();
    s.last_self_tsumo = None;
    p.hand_shanten = -1;
    assert!(true_indices(&s.discard_candidates_with_unconditional_tenpai_aka(&p)).is_empty());
    p.hand_shanten = 0;
    assert!(s.discard_candidates_with_unconditional_tenpai_aka(&p)[0]);
}

#[test]
fn unconditional_tenpai_under_riichi() {
    let (mut s, p) = tenpai_state();
    s.riichi_accepted[0] = true;
    assert_eq!(
        true_indices(&s.discard_candidates_with_unconditional_tenpai_aka(&p)),
        set_bits(&[2])
    );
    s.at_furiten = true;
    assert!(true_indices(&s.discard_candidates_with_unconditional_tenpai_aka(&p)).is_empty());
}

#[test]
fn unconditional_tenpai_is_subset_of_legal_discards() {
    let (mut s, p) = tenpai_state();
    s.forbidden_tiles[5] = true;
    let safe = s.discard_candidates_with_unconditional_tenpai(&p);
    let legal = s.discard_candidates();
    for i in 0..34 {
        assert!(!safe[i] || legal[i]);
    }
}

#[test]
fn furiten_wait_blocks_the_discard() {
    let (s, p) = tenpai_state();
    assert!(p.agari_after[5][20] && s.discarded_tiles[20]);
    assert!(!s.discard_candidates_with_unconditional_tenpai(&p)[5]);
}

#[test]
fn probe_hand_swaps_one_tile() {
    let mut s = base_state();
    s.tehai[0] = 2;
    s.tehai[5] = 1;
    let h = s.probe_hand(0, 5);
    assert_eq!(h[0], 1);
    assert_eq!(h[5], 2);
    assert_eq!(h.iter().map(|&c| c as u32).sum::<u32>(), 3);
}

#[test]
fn yaokyuu_kinds_are_counted_once() {
    let mut s = base_state();
    s.tehai[0] = 3;
    s.tehai[8] = 1;
    s.tehai[27] = 2;
    s.tehai[33] = 1;
    s.tehai[4] = 2;
    assert_eq!(s.yaokyuu_kind_count(), 4);
}

#[test]
fn rank_breaks_ties_by_seat() {
    let mut s = base_state();
    s.player_id = 2;
    assert_eq!(s.get_rank([25000, 25000, 25000, 25000]), 2);
    s.player_id = 0;
    assert_eq!(s.get_rank([25000, 25000, 25000, 25000]), 0);
    assert_eq!(s.get_rank([10000, 30000, 5000, 20000]), 2);
}

fn ryukyoku_state() -> PlayerState {
    let mut s = discard_state();
    s.last_cans.can_ryukyoku = true;
    s
}

#[test]
fn west_round_calls_draw() {
    let mut s = ryukyoku_state();
    s.bakaze = 29;
    s.tehai[27] = 1;
    s.tehai[28] = 1;
    assert!(s.rule_based_ryukyoku(3));
}

#[test]
fn no_draw_call_near_tenpai() {
    let mut s = ryukyoku_state();
    s.bakaze = 29;
    for hs in -1..=2i8 {
        assert!(!s.rule_based_ryukyoku(hs));
    }
    s.last_cans.can_ryukyoku = false;
    assert!(!s.rule_based_ryukyoku(5));
}

#[test]
fn draw_call_depends_on_yaokyuu_count() {
    let mut s = ryukyoku_state();
    for i in [0usize, 8, 9, 17, 18, 26, 27, 28, 29] {
        s.tehai[i] = 1;
    }
    assert!(s.rule_based_ryukyoku(4));
    s.tehai[30] = 1;
    assert!(!s.rule_based_ryukyoku(4));
}

#[test]
fn all_honors_keep_the_hand() {
    let mut s = ryukyoku_state();
    for i in 27..34 {
        s.tehai[i] = 1;
    }
    assert_eq!(s.yaokyuu_kind_count(), 7);
    assert!(!s.rule_based_ryukyoku(4));
}

#[test]
fn all_last_draw_call_by_placement() {
    let mut s = ryukyoku_state();
    s.is_all_last = true;
    s.oya = 1;
    s.rank = 3;
    // a haneman tsumo by the dealer would lift this player out of last place
    s.scores = [10000, 40000, 25000, 25000];
    assert!(!s.rule_based_ryukyoku(4));
    // even a haneman tsumo by the dealer leaves this player last
    s.scores = [0, 40000, 25000, 25000];
    assert!(s.rule_based_ryukyoku(4));
    s.rank = 2;
    assert!(s.rule_based_ryukyoku(4));
}

#[test]
fn real_time_shanten_by_phase() {
    let mut s = base_state();
    s.shanten = 2;
    assert_eq!(s.real_time_shanten(5), 2);
    s.last_cans.can_discard = true;
    s.has_next_shanten_discard = true;
    assert_eq!(s.real_time_shanten(5), 1);
    s.has_next_shanten_discard = false;
    assert_eq!(s.real_time_shanten(5), 2);
    s.shanten = 0;
    s.tehai[5] = 1;
    s.last_self_tsumo = Some(5);
    s.waits[5] = true;
    assert_eq!(s.real_time_shanten(5), -1);
    s.waits[5] = false;
    assert_eq!(s.real_time_shanten(5), 0);
    s.last_self_tsumo = None;
    assert_eq!(s.real_time_shanten(-1), -1);
    assert_eq!(s.real_time_shanten(0), 0);
}

#[test]
fn point_table_values() {
    assert_eq!(
        Point::calc(false, 30, 3),
        Point { ron: 3900, tsumo_oya: 2000, tsumo_ko: 1000 }
    );
    assert_eq!(
        Point::calc(false, 30, 4),
        Point { ron: 7700, tsumo_oya: 3900, tsumo_ko: 2000 }
    );
    assert_eq!(
        Point::calc(true, 30, 5),
        Point { ron: 12000, tsumo_oya: 0, tsumo_ko: 4000 }
    );
    assert_eq!(
        Point::calc(false, 40, 6),
        Point { ron: 12000, tsumo_oya: 6000, tsumo_ko: 3000 }
    );
    assert_eq!(Point::calc(false, 20, 13), Point::yakuman(false, 1));
    assert_eq!(
        Point::yakuman(true, 2),
        Point { ron: 96000, tsumo_oya: 0, tsumo_ko: 32000 }
    );
    assert_eq!(Point::calc(false, 30, 3).tsumo_total(false), 4000);
    assert_eq!(Point::calc(true, 30, 3).tsumo_total(true), 6000);
    assert_eq!(Agari::Yakuman(1).point(false).ron, 32000);
}

fn dealer_tsumo_state() -> PlayerState {
    let mut s = discard_state();
    for i in [0usize, 1, 2, 12, 13, 14, 24, 25, 26] {
        s.tehai[i] = 1;
    }
    s.tehai[27] = 3;
    s.last_self_tsumo = Some(27);
    s.last_cans.can_tsumo_agari = true;
    s.oya = 0;
    s.shanten = 0;
    s
}

#[test]
fn dealer_menzen_tsumo_scores_one_han_forty_fu() {
    let s = dealer_tsumo_state();
    let q = s.agari_request(false, &[]).unwrap();
    assert_eq!(q.additional_hans, 1);
    assert_eq!(q.doras, 0);
    assert_eq!(q.winning_tile, 27);
    assert!(!q.is_ron);
    assert_eq!(q.tehai, s.tehai);
    let p = s
        .agari_points(false, Some(Agari::Normal { fu: 40, han: 1 }))
        .unwrap();
    assert_eq!(p, Point { ron: 2000, tsumo_oya: 0, tsumo_ko: 700 });
    assert_eq!(p.tsumo_total(true), 2100);
}

#[test]
fn agari_points_errors() {
    let mut s = dealer_tsumo_state();
    assert_eq!(s.agari_points(false, None), Err(AgariError::NotHoraHand));
    s.last_cans.can_tsumo_agari = false;
    assert_eq!(
        s.agari_points(false, Some(Agari::Yakuman(1))),
        Err(AgariError::CannotAgari)
    );
    s.last_cans.can_ron_agari = true;
    s.last_kawa_tile = Some(3);
    assert_eq!(
        s.agari_points(false, Some(Agari::Yakuman(1))),
        Err(AgariError::CannotAgari)
    );
    let mut s = dealer_tsumo_state();
    assert_eq!(
        s.agari_points(true, Some(Agari::Yakuman(1))),
        Err(AgariError::NoWinningTile)
    );
    assert!(s.agari_request(true, &[]).is_none());
    s.can_w_riichi = true;
    assert_eq!(
        s.agari_points(false, None),
        Ok(Point { ron: 48000, tsumo_oya: 0, tsumo_ko: 16000 })
    );
}

#[test]
fn ron_request_counts_tile_red_five_and_uradora() {
    let mut s = base_state();
    s.tehai[4] = 1;
    s.tehai[13] = 2;
    s.tehai[30] = 0;
    s.ankan_overview[0] = vec![31];
    s.last_kawa_tile = Some(34);
    s.last_cans.can_ron_agari = true;
    s.dora_factor[4] = 1;
    s.doras_owned[0] = 2;
    s.riichi_accepted[0] = true;
    s.at_ippatsu = true;
    s.tiles_left = 0;
    let q = s.agari_request(true, &[12, 33, 35]).unwrap();
    assert_eq!(q.tehai[4], 2);
    assert_eq!(q.winning_tile, 4);
    assert_eq!(q.additional_hans, 3);
    // 2 owned + 1 indicated + 1 red; uradora: 5p x2, P x4 (kan), 6p x0
    assert_eq!(q.doras, 2 + 1 + 1 + 2 + 4);
}

fn last_place_ron_state() -> PlayerState {
    let mut s = base_state();
    s.is_all_last = true;
    s.oya = 1;
    s.rank = 3;
    s.bakaze = 28;
    s.scores = [20000, 32000, 24000, 24000];
    s.last_cans.can_ron_agari = true;
    s.last_cans.target_actor = 2;
    s.last_kawa_tile = Some(3);
    s
}

#[test]
fn last_place_cheap_ron_is_declined() {
    let s = last_place_ron_state();
    assert!(!s.rule_based_agari(Agari::Normal { fu: 30, han: 1 }));
    assert!(s.rule_based_agari(Agari::Normal { fu: 30, han: 4 }));
}

#[test]
fn agari_taken_outside_last_place_cases() {
    let mut s = last_place_ron_state();
    s.rank = 2;
    assert!(s.rule_based_agari(Agari::Normal { fu: 30, han: 1 }));
    let mut s = last_place_ron_state();
    s.scores = [20000, 29000, 24000, 27000];
    assert!(s.rule_based_agari(Agari::Normal { fu: 30, han: 1 }));
    let mut s = last_place_ron_state();
    s.bakaze = 29;
    s.kyoku = 2;
    assert!(s.rule_based_agari(Agari::Normal { fu: 30, han: 1 }));
    s.kyoku = 3;
    assert!(!s.rule_based_agari(Agari::Normal { fu: 30, han: 1 }));
    let mut s = last_place_ron_state();
    s.last_cans.can_ron_agari = false;
    assert!(!s.rule_based_agari(Agari::Yakuman(1)));
}

#[test]
fn last_place_tsumo_uses_split_payments() {
    let mut s = last_place_ron_state();
    s.last_cans.can_ron_agari = false;
    s.last_cans.can_tsumo_agari = true;
    s.last_self_tsumo = Some(3);
    s.tehai[3] = 1;
    // 30 fu 4 han tsumo: 3900 from the dealer, 2000 from each other
    assert!(s.rule_based_agari(Agari::Normal { fu: 30, han: 4 }));
    assert!(!s.rule_based_agari(Agari::Normal { fu: 30, han: 1 }));
}

fn riichi_ura_state() -> PlayerState {
    let mut s = base_state();
    s.riichi_accepted[0] = true;
    s.dora_indicators = vec![27, 0];
    s.tehai[13] = 3;
    s.tehai[0] = 2;
    s.ankan_overview[0] = vec![31];
    s.last_cans.can_ron_agari = true;
    s.last_kawa_tile = Some(1);
    s
}

#[test]
fn uradora_go_to_the_most_held_kind() {
    let mut s = riichi_ura_state();
    assert_eq!(s.max_ura_indicators().to_vec(), vec![33, 33]);
    s.tiles_seen[33] = 3;
    assert_eq!(s.max_ura_indicators().to_vec(), vec![33, 12]);
    s.tiles_seen[33] = 4;
    assert_eq!(s.max_ura_indicators().to_vec(), vec![12, 12]);
    let q = s.best_agari_request().unwrap();
    assert_eq!(q.doras, 6);
    assert_eq!(q.additional_hans, 1);
    s.riichi_accepted[0] = false;
    assert_eq!(s.best_agari_request().unwrap().doras, 0);
}

#[test]
fn single_player_query_errors() {
    let mut s = discard_state();
    s.shanten = 2;
    s.tiles_left = 3;
    assert_eq!(s.single_player_tables(2).unwrap_err(), TablesError::NotEnoughTsumo);
    s.tiles_left = 20;
    s.shanten = 0;
    s.last_self_tsumo = None;
    assert_eq!(s.single_player_tables(-1).unwrap_err(), TablesError::AlreadyAgari);
    let mut s = base_state();
    s.last_cans.target_actor = 1;
    s.tiles_left = 6;
    assert_eq!(s.single_player_tables(1).unwrap_err(), TablesError::NotEnoughTsumo);
}

#[test]
fn single_player_query_at_discard() {
    let mut s = discard_state();
    s.shanten = 1;
    s.tiles_left = 9;
    s.tehai[2] = 1;
    s.scores[0] = 500;
    let q: SinglePlayerQuery = s.single_player_tables(1).unwrap();
    assert_eq!(q.tsumos_left, 2);
    assert!(!q.calc_haitei);
    assert_eq!(q.cur_shanten, 1);
    assert!(q.can_discard);
    assert!(!q.prefer_riichi);
    assert_eq!(q.relabel_first, None);
    assert_eq!(q.num_doras_in_fuuro, 0);
}

#[test]
fn single_player_query_after_riichi_draw() {
    let mut s = discard_state();
    s.shanten = 0;
    s.tiles_left = 8;
    s.tehai[4] = 1;
    s.akas_in_hand[0] = true;
    s.riichi_accepted[0] = true;
    s.last_self_tsumo = Some(34);
    let q = s.single_player_tables(0).unwrap();
    assert_eq!(q.tehai[4], 0);
    assert_eq!(q.akas_in_hand, [false, false, false]);
    assert!(!q.can_discard);
    assert_eq!(q.relabel_first, Some(34));
    assert!(q.calc_haitei);
    assert!(q.prefer_riichi);
}

#[test]
fn single_player_query_before_next_draw() {
    let mut s = base_state();
    s.shanten = 1;
    s.last_cans.target_actor = 3;
    s.tiles_left = 5;
    s.is_menzen = false;
    s.dora_indicators = vec![0];
    s.tehai[1] = 1;
    s.tehai[4] = 1;
    s.akas_in_hand[0] = true;
    s.doras_owned[0] = 3;
    let q = s.single_player_tables(1).unwrap();
    assert_eq!(q.tsumos_left, 1);
    assert!(q.calc_haitei);
    assert_eq!(q.num_doras_in_fuuro, 1);
}
