use prediction_markets::{
    cancel_market, claim_winnings, create_market, finalize_resolution, place_bet, resolve_market,
    Address, Bet, CancelMarket, ClaimWinnings, CreateMarket, ErrorKind, FinalizeResolution,
    Market, MarketError, MarketStatus, PlaceBet, ResolveMarket, UserStats,
};

const NOW: i64 = 1_700_000_000;
const DAY: i64 = 86_400;

fn addr(b: u8) -> Address {
    Address::new([b; 32])
}

fn fresh_stats() -> UserStats {
    UserStats {
        user: addr(0),
        total_bets: 0,
        total_wagered: 0,
        total_won: 0,
        total_lost: 0,
        win_count: 0,
        loss_count: 0,
        current_streak: 0,
        best_streak: 0,
        net_profit: 0,
    }
}

fn new_market(end_time: i64) -> Market {
    let ctx = CreateMarket { creator: addr(1), vault: addr(2), vault_bump: 254, now: NOW };
    create_market(
        &ctx,
        7,
        "Will it rain tomorrow?".to_string(),
        "Resolves YES if rain is recorded.".to_string(),
        end_time,
        "weather".to_string(),
    )
    .unwrap()
}

fn bet_on(market: Market, stats: UserStats, user: u8, amount: u64, yes: bool, now: i64) -> (Market, UserStats, Result<Bet, MarketError>) {
    let mut ctx = PlaceBet { market, market_key: addr(9), user_stats: stats, user: addr(user), now };
    let r = place_bet(&mut ctx, amount, yes);
    (ctx.market, ctx.user_stats, r)
}

fn propose(market: Market, proposer: u8, balance: u64, outcome: bool, now: i64) -> (Market, Result<u64, MarketError>) {
    let mut ctx = ResolveMarket { market, proposer: addr(proposer), proposer_balance: balance, now };
    let r = resolve_market(&mut ctx, outcome);
    (ctx.market, r)
}

fn finalize(market: Market, now: i64) -> (Market, Result<u64, MarketError>) {
    let mut ctx = FinalizeResolution { market, now };
    let r = finalize_resolution(&mut ctx);
    (ctx.market, r)
}

#[test]
fn create_market_seeds_pools() {
    let m = new_market(NOW + 1000);
    assert_eq!(m.yes_pool, 1_000_000_000);
    assert_eq!(m.no_pool, 1_000_000_000);
    assert_eq!(m.total_volume, 0);
    assert_eq!(m.total_bets_count, 0);
    assert_eq!(m.fee_percentage, 2);
    assert_eq!(m.status, MarketStatus::Active);
    assert_eq!(m.resolution_bond, 0);
    assert!(m.outcome.is_none());
    assert!(m.resolution_proposer.is_none());
    assert!(!m.is_finalized);
    assert_eq!(m.created_at, NOW);
}

#[test]
fn create_market_rejections() {
    let ctx = CreateMarket { creator: addr(1), vault: addr(2), vault_bump: 1, now: NOW };
    let long_q = "q".repeat(201);
    let long_d = "d".repeat(501);
    let r = create_market(&ctx, 1, long_q, String::new(), NOW + 10, String::new());
    assert_eq!(r.unwrap_err(), MarketError::QuestionTooLong);
    let r = create_market(&ctx, 1, "q".repeat(200), long_d, NOW + 10, String::new());
    assert_eq!(r.unwrap_err(), MarketError::DescriptionTooLong);
    let r = create_market(&ctx, 1, "q".to_string(), String::new(), NOW + 10, "c".repeat(51));
    assert_eq!(r.unwrap_err(), MarketError::CategoryTooLong);
    assert_eq!(MarketError::CategoryTooLong.kind(), ErrorKind::Validation);
    let r = create_market(&ctx, 1, "q".to_string(), String::new(), NOW + 10, "c".repeat(50));
    assert!(r.is_ok());
    let r = create_market(&ctx, 1, "q".to_string(), "d".repeat(500), NOW, String::new());
    assert_eq!(r.unwrap_err(), MarketError::EndTimeInPast);
    let r = create_market(&ctx, 1, "q".to_string(), String::new(), NOW + 30 * DAY, String::new());
    assert_eq!(r.unwrap_err(), MarketError::EndTimeTooFar);
    let r = create_market(&ctx, 1, "q".to_string(), String::new(), NOW + 30 * DAY - 1, String::new());
    assert!(r.is_ok());
    assert_eq!(MarketError::EndTimeTooFar.kind(), ErrorKind::Validation);
}

#[test]
fn question_length_counts_characters() {
    let ctx = CreateMarket { creator: addr(1), vault: addr(2), vault_bump: 1, now: NOW };
    let r = create_market(&ctx, 1, "é".repeat(200), String::new(), NOW + 10, String::new());
    assert!(r.is_ok());
}

#[test]
fn first_yes_bet_moves_pool() {
    let m = new_market(NOW + 1000);
    let (m, stats, r) = bet_on(m, fresh_stats(), 3, 2_000_000, true, NOW + 1);
    let bet = r.unwrap();
    assert_eq!(bet.tokens_received, 1_996_007);
    assert_eq!(bet.amount, 2_000_000);
    assert!(bet.prediction);
    assert!(!bet.claimed);
    assert_eq!(bet.payout, 0);
    assert_eq!(bet.timestamp, NOW + 1);
    assert_eq!(m.yes_pool, 1_002_000_000);
    assert_eq!(m.no_pool, 1_000_000_000);
    assert_eq!(m.total_yes_bets, 2_000_000);
    assert_eq!(m.total_volume, 2_000_000);
    assert_eq!(m.total_bets_count, 1);
    assert_eq!(m.unique_bettors, 1);
    assert_eq!(stats.total_bets, 1);
    assert_eq!(stats.total_wagered, 2_000_000);
    assert!(stats.user.same_as(&addr(3)));
}

#[test]
fn repeat_bettor_is_counted_once() {
    let m = new_market(NOW + 1000);
    let (m, stats, _) = bet_on(m, fresh_stats(), 3, 2_000_000, true, NOW + 1);
    let (m, stats, r) = bet_on(m, stats, 3, 5_000_000, false, NOW + 2);
    assert!(r.is_ok());
    assert_eq!(m.unique_bettors, 1);
    assert_eq!(m.no_pool, 1_005_000_000);
    assert_eq!(stats.total_bets, 2);
    assert_eq!(stats.total_wagered, 7_000_000);
}

#[test]
fn volume_equals_side_totals_and_stakes() {
    let mut m = new_market(NOW + 1000);
    let stakes: Vec<(u64, bool)> = vec![
        (1_000_000, true),
        (3_500_000, false),
        (10_000_000_000, true),
        (2_222_222, false),
        (9_999_999, true),
    ];
    let mut sum: u64 = 0;
    for (i, (amount, side)) in stakes.iter().enumerate() {
        let (next, _, r) = bet_on(m, fresh_stats(), 10 + i as u8, *amount, *side, NOW + 5);
        assert!(r.is_ok());
        m = next;
        sum += amount;
    }
    assert_eq!(m.total_volume, m.total_yes_bets + m.total_no_bets);
    assert_eq!(m.total_volume, sum);
    assert_eq!(m.total_bets_count, 5);
}

#[test]
fn bet_rejections() {
    let m = new_market(NOW + 1000);
    let (m, _, r) = bet_on(m, fresh_stats(), 3, 999_999, true, NOW);
    assert_eq!(r.unwrap_err(), MarketError::BetTooSmall);
    let (m, _, r) = bet_on(m, fresh_stats(), 3, 10_000_000_001, true, NOW);
    assert_eq!(r.unwrap_err(), MarketError::BetTooLarge);
    assert_eq!(MarketError::BetTooLarge.kind(), ErrorKind::Validation);
    assert_eq!(m.total_volume, 0);
    assert_eq!(m.yes_pool, 1_000_000_000);
}

#[test]
fn no_bet_at_or_after_cutoff() {
    for now in [NOW + 1000, NOW + 1001, i64::MAX] {
        let m = new_market(NOW + 1000);
        let (m, stats, r) = bet_on(m, fresh_stats(), 3, 2_000_000, true, now);
        let e = r.unwrap_err();
        assert_eq!(e, MarketError::MarketEnded);
        assert_eq!(e.kind(), ErrorKind::State);
        assert_eq!(m.total_volume, 0);
        assert_eq!(stats.total_bets, 0);
    }
}

#[test]
fn bet_on_inactive_market_fails() {
    let mut m = new_market(NOW + 1000);
    m.status = MarketStatus::Cancelled;
    let (_, _, r) = bet_on(m, fresh_stats(), 3, 2_000_000, true, NOW);
    assert_eq!(r.unwrap_err(), MarketError::MarketNotActive);
}

#[test]
fn bet_overflow_leaves_records_unchanged() {
    let mut m = new_market(NOW + 1000);
    m.total_volume = u64::MAX;
    let (m, stats, r) = bet_on(m, fresh_stats(), 3, 2_000_000, true, NOW);
    assert_eq!(r.unwrap_err(), MarketError::MathOverflow);
    assert_eq!(m.yes_pool, 1_000_000_000);
    assert_eq!(stats.total_bets, 0);
}

#[test]
fn challenge_doubles_bond_and_restarts_window() {
    let m = new_market(NOW + 1000);
    let (m, first) = propose(m, 4, 500_000_000, true, NOW + 1000);
    assert_eq!(first, Ok(100_000_000));
    assert_eq!(m.resolution_bond, 100_000_000);
    assert_eq!(m.challenge_deadline, Some(NOW + 1000 + DAY));
    let (m, second) = propose(m, 5, 500_000_000, false, NOW + 2000);
    assert_eq!(second, Ok(200_000_000));
    assert_eq!(first.unwrap() + second.unwrap(), 300_000_000);
    assert_eq!(m.resolution_bond, 200_000_000);
    assert_eq!(m.outcome, Some(false));
    assert!(m.resolution_proposer.unwrap().same_as(&addr(5)));
    assert_eq!(m.challenge_deadline, Some(NOW + 2000 + DAY));
    assert_eq!(m.resolution_time, Some(NOW + 2000));
    let (m, third) = propose(m, 6, 500_000_000, true, NOW + 3000);
    assert_eq!(third, Ok(400_000_000));
    assert_eq!(first.unwrap() + second.unwrap() + third.unwrap(), 700_000_000);
    assert_eq!(m.resolution_bond, 400_000_000);
}

#[test]
fn proposal_rejections() {
    let m = new_market(NOW + 1000);
    let (m, r) = propose(m, 4, 500_000_000, true, NOW + 999);
    assert_eq!(r.unwrap_err(), MarketError::MarketNotEnded);
    let (m, r) = propose(m, 4, 99_999_999, true, NOW + 1000);
    assert_eq!(r.unwrap_err(), MarketError::InsufficientBond);
    let (m, _) = propose(m, 4, 100_000_000, true, NOW + 1000);
    let (m, r) = propose(m, 5, 150_000_000, false, NOW + 1001);
    assert_eq!(r.unwrap_err(), MarketError::InsufficientBond);
    assert_eq!(MarketError::InsufficientBond.kind(), ErrorKind::InsufficientBond);
    assert_eq!(m.resolution_bond, 100_000_000);
    assert_eq!(m.outcome, Some(true));
}

#[test]
fn finalize_before_deadline_fails() {
    let m = new_market(NOW + 1000);
    let (m, _) = propose(m, 4, 500_000_000, true, NOW + 1000);
    let (m, r) = finalize(m, NOW + 1000 + DAY - 1);
    assert_eq!(r.unwrap_err(), MarketError::ChallengePeriodActive);
    assert_eq!(m.status, MarketStatus::Active);
    assert!(!m.is_finalized);
}

#[test]
fn finalize_without_proposal_fails() {
    let m = new_market(NOW + 1000);
    let (_, r) = finalize(m, NOW + 10 * DAY);
    assert_eq!(r.unwrap_err(), MarketError::NoResolutionProposed);
}

#[test]
fn finalize_returns_bond_once() {
    let m = new_market(NOW + 1000);
    let (m, _) = propose(m, 4, 500_000_000, true, NOW + 1000);
    let (m, _) = propose(m, 5, 500_000_000, true, NOW + 1500);
    let (m, r) = finalize(m, NOW + 1500 + DAY);
    assert_eq!(r, Ok(200_000_000));
    assert_eq!(m.status, MarketStatus::Resolved);
    assert!(m.is_finalized);
    let (m, r) = finalize(m, NOW + 1500 + DAY);
    assert_eq!(r.unwrap_err(), MarketError::MarketNotActive);
    let (_, r) = propose(m, 6, 900_000_000, false, NOW + 1600 + DAY);
    assert_eq!(r.unwrap_err(), MarketError::MarketNotActive);
}

fn settled_market() -> (Market, Bet, UserStats, Bet, UserStats) {
    let m = new_market(NOW + 1000);
    let (m, winner_stats, r) = bet_on(m, fresh_stats(), 3, 2_000_000, true, NOW + 1);
    let winner_bet = r.unwrap();
    let (m, loser_stats, r) = bet_on(m, fresh_stats(), 8, 3_000_000, false, NOW + 2);
    let loser_bet = r.unwrap();
    let (m, _) = propose(m, 4, 500_000_000, true, NOW + 1000);
    let (m, _) = finalize(m, NOW + 1000 + DAY);
    (m, winner_bet, winner_stats, loser_bet, loser_stats)
}

#[test]
fn winner_is_paid_stake_share_less_fee() {
    let (m, bet, stats, _, _) = settled_market();
    assert_eq!(m.yes_pool, 1_002_000_000);
    let mut ctx = ClaimWinnings { market: m, bet, user_stats: stats, user: addr(3) };
    let r = claim_winnings(&mut ctx);
    // pools 1_002_000_000 / 1_003_000_000: extra 2_001_996, gross 4_001_996, fee 80_039
    assert_eq!(r, Ok(3_921_957));
    assert!(ctx.bet.claimed);
    assert_eq!(ctx.bet.payout, 3_921_957);
    assert_eq!(ctx.user_stats.total_won, 3_921_957);
    assert_eq!(ctx.user_stats.win_count, 1);
    assert_eq!(ctx.user_stats.current_streak, 1);
    assert_eq!(ctx.user_stats.best_streak, 1);
    assert_eq!(ctx.user_stats.net_profit, 1_921_957);
}

#[test]
fn winner_payout_after_one_yes_bet_pools() {
    let mut m = new_market(NOW + 1000);
    m.status = MarketStatus::Resolved;
    m.is_finalized = true;
    m.outcome = Some(true);
    m.yes_pool = 1_002_000_000;
    m.no_pool = 1_000_000_000;
    let bet = Bet {
        market: addr(9),
        user: addr(3),
        amount: 2_000_000,
        tokens_received: 1_996_007,
        prediction: true,
        timestamp: NOW,
        claimed: false,
        payout: 0,
    };
    let mut stats = fresh_stats();
    stats.total_bets = 1;
    let mut ctx = ClaimWinnings { market: m, bet, user_stats: stats, user: addr(3) };
    let r = claim_winnings(&mut ctx);
    // extra floor(2e15 / 1_002_000_000) = 1_996_007; gross 3_996_007; fee 79_920
    assert_eq!(r, Ok(3_916_087));
    assert_eq!(ctx.user_stats.net_profit, 1_916_087);
}

#[test]
fn loser_gets_nothing_and_streak_resets() {
    let (m, _, _, bet, mut stats) = settled_market();
    stats.current_streak = 4;
    stats.best_streak = 6;
    stats.net_profit = 10_000_000;
    let mut ctx = ClaimWinnings { market: m, bet, user_stats: stats, user: addr(8) };
    let r = claim_winnings(&mut ctx);
    assert_eq!(r, Ok(0));
    assert!(ctx.bet.claimed);
    assert_eq!(ctx.bet.payout, 0);
    assert_eq!(ctx.user_stats.current_streak, 0);
    assert_eq!(ctx.user_stats.best_streak, 6);
    assert_eq!(ctx.user_stats.net_profit, 7_000_000);
    assert_eq!(ctx.user_stats.total_lost, 3_000_000);
    assert_eq!(ctx.user_stats.loss_count, 1);
}

#[test]
fn second_claim_fails() {
    let (m, bet, stats, _, _) = settled_market();
    let mut ctx = ClaimWinnings { market: m, bet, user_stats: stats, user: addr(3) };
    assert!(claim_winnings(&mut ctx).is_ok());
    let won = ctx.user_stats.total_won;
    let r = claim_winnings(&mut ctx);
    let e = r.unwrap_err();
    assert_eq!(e, MarketError::AlreadyClaimed);
    assert_eq!(e.kind(), ErrorKind::State);
    assert_eq!(ctx.user_stats.total_won, won);
}

#[test]
fn claim_rejections() {
    let (m, bet, stats, _, _) = settled_market();
    let mut ctx = ClaimWinnings { market: m.clone(), bet, user_stats: stats, user: addr(99) };
    assert_eq!(claim_winnings(&mut ctx).unwrap_err(), MarketError::NotBetOwner);
    assert_eq!(MarketError::NotBetOwner.kind(), ErrorKind::Authorization);
    assert!(!ctx.bet.claimed);
    let mut open = m.clone();
    open.status = MarketStatus::Active;
    let mut ctx = ClaimWinnings { market: open, bet, user_stats: stats, user: addr(3) };
    assert_eq!(claim_winnings(&mut ctx).unwrap_err(), MarketError::MarketNotResolved);
    let mut unfinal = m;
    unfinal.is_finalized = false;
    let mut ctx = ClaimWinnings { market: unfinal, bet, user_stats: stats, user: addr(3) };
    assert_eq!(claim_winnings(&mut ctx).unwrap_err(), MarketError::ResolutionNotFinalized);
}

#[test]
fn cancel_after_bet_fails() {
    let m = new_market(NOW + 1000);
    let (m, _, _) = bet_on(m, fresh_stats(), 3, 2_000_000, true, NOW + 1);
    let mut ctx = CancelMarket { market: m, creator: addr(1) };
    let e = cancel_market(&mut ctx).unwrap_err();
    assert_eq!(e, MarketError::HasBets);
    assert_eq!(e.kind(), ErrorKind::State);
    assert_eq!(ctx.market.status, MarketStatus::Active);
}

#[test]
fn cancel_by_creator_before_bets() {
    let m = new_market(NOW + 1000);
    let mut ctx = CancelMarket { market: m.clone(), creator: addr(2) };
    assert_eq!(cancel_market(&mut ctx).unwrap_err(), MarketError::NotCreator);
    let mut ctx = CancelMarket { market: m, creator: addr(1) };
    assert_eq!(cancel_market(&mut ctx), Ok(()));
    assert_eq!(ctx.market.status, MarketStatus::Cancelled);
    assert_eq!(cancel_market(&mut ctx).unwrap_err(), MarketError::MarketNotActive);
    let (_, r) = propose(ctx.market, 4, 500_000_000, true, NOW + 2000);
    assert_eq!(r.unwrap_err(), MarketError::MarketNotActive);
}

#[test]
fn error_messages() {
    assert_eq!(MarketError::HasBets.message(), "Market has bets, cannot cancel");
    assert_eq!(MarketError::MathOverflow.kind(), ErrorKind::ArithmeticOverflow);
}

#[test]
fn challenge_after_window_fails() {
    let m = new_market(NOW + 1000);
    let (m, _) = propose(m, 4, 500_000_000, true, NOW + 1000);
    let (m, r) = propose(m, 5, 500_000_000, false, NOW + 1000 + DAY);
    let e = r.unwrap_err();
    assert_eq!(e, MarketError::ChallengePeriodEnded);
    assert_eq!(e.kind(), ErrorKind::State);
    assert_eq!(m.outcome, Some(true));
    assert_eq!(m.resolution_bond, 100_000_000);
    let (m, r) = propose(m, 5, 500_000_000, false, NOW + 1000 + DAY - 1);
    assert_eq!(r, Ok(200_000_000));
    assert_eq!(m.outcome, Some(false));
}
