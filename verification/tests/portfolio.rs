use qkukeb_engine::decimal::FixedDecimal;
use qkukeb_engine::portfolio::{checked_drawdown, PortfolioStateManager};

/// 0.01 at scale 8.
fn sigma_sq() -> FixedDecimal {
    FixedDecimal::new(1_000_000, 8)
}

#[test]
fn test_open_and_snapshot() {
    let mut mgr = PortfolioStateManager::new(FixedDecimal::new(100_000, 0));

    mgr.open_position(
        "BTC-USDT-PERP",
        1, // Buy
        FixedDecimal::new(10_000, 0),
        FixedDecimal::new(50000, 2), // $500.00
        FixedDecimal::new(5, 0),     // 5x
    );

    let snapshot = mgr.snapshot(sigma_sq());
    assert_eq!(snapshot.open_position_count, 1);
    assert_eq!(snapshot.gross_exposure, FixedDecimal::new(10_000, 0));
}

#[test]
fn test_close_position() {
    let mut mgr = PortfolioStateManager::new(FixedDecimal::new(100_000, 0));

    mgr.open_position(
        "ETH-USDT-SPOT",
        1,
        FixedDecimal::new(5_000, 0),
        FixedDecimal::new(30000, 2),
        FixedDecimal::new(1, 0),
    );

    let remaining = mgr.close_position("ETH-USDT-SPOT", FixedDecimal::new(3_000, 0));
    assert!(remaining.is_some());
    assert_eq!(remaining.unwrap(), FixedDecimal::new(2_000, 0));

    let snapshot = mgr.snapshot(sigma_sq());
    assert_eq!(snapshot.gross_exposure, FixedDecimal::new(2_000, 0));
}

#[test]
fn test_net_exposure_with_short() {
    let mut mgr = PortfolioStateManager::new(FixedDecimal::new(100_000, 0));

    mgr.open_position("BTC-USDT-PERP", 1, FixedDecimal::new(30_000, 0), FixedDecimal::new(50000, 2), FixedDecimal::new(5, 0));
    mgr.open_position("ETH-USDT-PERP", 2, FixedDecimal::new(20_000, 0), FixedDecimal::new(30000, 2), FixedDecimal::new(3, 0));

    let snapshot = mgr.snapshot(sigma_sq());
    assert_eq!(snapshot.gross_exposure, FixedDecimal::new(50_000, 0));
    assert_eq!(snapshot.net_exposure, FixedDecimal::new(10_000, 0));
}

fn one() -> FixedDecimal {
    FixedDecimal::new(1, 0)
}

#[test]
fn a_new_portfolio_shows_nothing_but_its_assets() {
    let mgr = PortfolioStateManager::new(FixedDecimal::new(100_000, 0));
    let s = mgr.snapshot(sigma_sq());
    assert_eq!(mgr.position_count(), 0);
    assert_eq!(s.drawdown_pct, FixedDecimal::new(0, 0));
    assert_eq!(s.var_1d_99_pct, FixedDecimal::new(50, 4));
    assert_eq!(s.garch_sigma_sq, sigma_sq());
    assert_eq!(s.gross_exposure, FixedDecimal::new(0, 0));
    assert_eq!(s.net_exposure, FixedDecimal::new(0, 0));
    assert_eq!(s.open_position_count, 0);
    assert_eq!(s.aum, FixedDecimal::new(100_000, 0));
    assert_eq!(s.hwm, FixedDecimal::new(100_000, 0));
}

#[test]
fn adding_to_a_position_keeps_its_side() {
    let mut mgr = PortfolioStateManager::new(FixedDecimal::new(100_000, 0));
    mgr.open_position("A", 1, FixedDecimal::new(100, 0), one(), one());
    mgr.open_position("A", 2, FixedDecimal::new(50, 2), one(), one());
    let s = mgr.snapshot(sigma_sq());
    assert_eq!(mgr.position_count(), 1);
    assert_eq!(s.gross_exposure, FixedDecimal::new(10_050, 2));
    assert_eq!(s.net_exposure, FixedDecimal::new(10_050, 2));
}

#[test]
fn a_side_that_is_neither_counts_for_nothing_in_the_net() {
    let mut mgr = PortfolioStateManager::new(FixedDecimal::new(100_000, 0));
    mgr.open_position("A", 0, FixedDecimal::new(100, 0), one(), one());
    let s = mgr.snapshot(sigma_sq());
    assert_eq!(s.gross_exposure, FixedDecimal::new(100, 0));
    assert_eq!(s.net_exposure, FixedDecimal::new(0, 0));
}

#[test]
fn closing_the_whole_position_removes_it() {
    let mut mgr = PortfolioStateManager::new(FixedDecimal::new(100_000, 0));
    mgr.open_position("A", 1, FixedDecimal::new(100, 0), one(), one());
    mgr.open_position("B", 2, FixedDecimal::new(7, 0), one(), one());
    assert_eq!(mgr.close_position("A", FixedDecimal::new(10_000, 2)), None);
    assert_eq!(mgr.position_count(), 1);
    let s = mgr.snapshot(sigma_sq());
    assert_eq!(s.gross_exposure, FixedDecimal::new(7, 0));
    assert_eq!(s.net_exposure, FixedDecimal::new(-7, 0));
}

#[test]
fn closing_more_than_there_is_removes_the_position() {
    let mut mgr = PortfolioStateManager::new(FixedDecimal::new(100_000, 0));
    mgr.open_position("A", 1, FixedDecimal::new(100, 0), one(), one());
    assert_eq!(mgr.close_position("A", FixedDecimal::new(101, 0)), None);
    assert_eq!(mgr.position_count(), 0);
}

#[test]
fn closing_what_is_not_there_does_nothing() {
    let mut mgr = PortfolioStateManager::new(FixedDecimal::new(100_000, 0));
    mgr.open_position("A", 1, FixedDecimal::new(100, 0), one(), one());
    assert_eq!(mgr.close_position("B", one()), None);
    assert_eq!(mgr.position_count(), 1);
}

#[test]
fn a_reduction_splits_the_position() {
    let mut mgr = PortfolioStateManager::new(FixedDecimal::new(100_000, 0));
    mgr.open_position("A", 1, FixedDecimal::new(100, 0), one(), one());
    assert_eq!(
        mgr.close_position("A", FixedDecimal::new(125, 2)),
        Some(FixedDecimal::new(9_875, 2))
    );
}

#[test]
fn the_exposures_do_not_depend_on_the_order() {
    let mut a = PortfolioStateManager::new(FixedDecimal::new(100_000, 0));
    let mut b = PortfolioStateManager::new(FixedDecimal::new(100_000, 0));
    let orders = [("A", 1, 300, 1), ("B", 2, 45_000, 3), ("C", 1, 7, 0)];
    for (name, side, raw, scale) in orders {
        a.open_position(name, side, FixedDecimal::new(raw, scale), one(), one());
    }
    for (name, side, raw, scale) in orders.iter().rev() {
        b.open_position(name, *side, FixedDecimal::new(*raw, *scale), one(), one());
    }
    assert_eq!(a.snapshot(sigma_sq()), b.snapshot(sigma_sq()));
    assert_eq!(a.snapshot(sigma_sq()).gross_exposure, FixedDecimal::new(82_000, 3));
    assert_eq!(a.snapshot(sigma_sq()).net_exposure, FixedDecimal::new(-8_000, 3));
}

#[test]
fn figures_that_do_not_fit_are_noticed() {
    let mut mgr = PortfolioStateManager::new(FixedDecimal::new(100_000, 0));
    mgr.open_position("A", 1, FixedDecimal::new(i64::MAX, 0), one(), one());
    assert!(!mgr.can_open_position("A", one()));
    assert!(mgr.can_open_position("B", one()));
    assert!(mgr.checked_snapshot(sigma_sq()).is_some());
    mgr.open_position("B", 2, one(), one(), one());
    assert!(mgr.checked_snapshot(sigma_sq()).is_none());
}

#[test]
fn the_drawdown_is_a_share_of_the_mark_in_millionths() {
    let mark = FixedDecimal::new(200_000, 0);
    assert_eq!(
        checked_drawdown(FixedDecimal::new(190_000, 0), mark),
        Some(FixedDecimal::new(50_000, 6))
    );
    // 1 / 3 of the mark, rounded down.
    assert_eq!(
        checked_drawdown(FixedDecimal::new(2, 0), FixedDecimal::new(30, 1)),
        Some(FixedDecimal::new(333_333, 6))
    );
    assert_eq!(checked_drawdown(mark, mark), Some(FixedDecimal::new(0, 0)));
    assert_eq!(
        checked_drawdown(FixedDecimal::new(-5, 0), FixedDecimal::new(0, 0)),
        Some(FixedDecimal::new(0, 0))
    );
    assert_eq!(checked_drawdown(FixedDecimal::new(0, 0), FixedDecimal::new(i64::MAX, 0)), None);
}

#[test]
fn reducing_undoes_adding() {
    let mut mgr = PortfolioStateManager::new(FixedDecimal::new(100_000, 0));
    mgr.open_position("A", 1, FixedDecimal::new(100, 0), one(), one());
    mgr.open_position("A", 1, FixedDecimal::new(25, 2), one(), one());
    assert_eq!(
        mgr.close_position("A", FixedDecimal::new(25, 2)),
        Some(FixedDecimal::new(10_000, 2))
    );
}
