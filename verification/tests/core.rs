use vajra::cost::IndiaOptionsCost;
use vajra::calendar::{
    bar_timestamp, date_label, date_minute_label, days_to_expiry, days_until_thursday,
    LAST_EXPIRY_SECOND, MAX_CALENDAR_SECOND, MAX_EPOCH_DAY, MIN_EPOCH_DAY,
};
use vajra::legs::{has_underlying_leg, is_short_leg, leg_kind, spread_legs, LegKind, LegSide, SpreadLegs};
use vajra::lifecycle::{direction_label, position_after, position_kind, step, PositionKind, SignalKind, Step};
use vajra::schedule::{Dispatch, FillScheduler};

fn side(t: &str, a: &str) -> LegSide {
    LegSide {
        option_type: t.to_string(),
        action: a.to_string(),
    }
}

#[test]
fn slippage_direction_flips_on_exit() {
    let c = IndiaOptionsCost;
    // entry SELL gives up, entry BUY pays up, exit SELL (buy-to-close) pays up
    assert!(!c.fill_moves_up("SELL", false));
    assert!(c.fill_moves_up("BUY", false));
    assert!(c.fill_moves_up("SELL", true));
    assert!(!c.fill_moves_up("BUY", true));
    // any other action behaves as neither BUY nor SELL
    assert!(!c.fill_moves_up("HOLD", false));
    assert!(!c.fill_moves_up("HOLD", true));
}

#[test]
fn legs_classify_by_type() {
    assert_eq!(leg_kind("EQ"), LegKind::Underlying);
    assert_eq!(leg_kind("CE"), LegKind::Call);
    assert_eq!(leg_kind("PE"), LegKind::Put);
    assert_eq!(leg_kind("ce"), LegKind::Put);
    assert!(is_short_leg("SELL"));
    assert!(!is_short_leg("BUY"));
}

#[test]
fn spread_legs_pair_first_long_with_first_short() {
    let legs = vec![
        side("CE", "SELL"),
        side("CE", "BUY"),
        side("PE", "SELL"),
        side("CE", "SELL"),
    ];
    assert_eq!(spread_legs(&legs, "CE"), SpreadLegs::Pair { long: 1, short: 0 });
    assert_eq!(spread_legs(&legs, "PE"), SpreadLegs::NoLongLeg);
    let naked = vec![side("PE", "BUY")];
    assert_eq!(spread_legs(&naked, "PE"), SpreadLegs::MissingShort { long: 0 });
    assert!(!has_underlying_leg(&legs));
    assert!(has_underlying_leg(&vec![side("CE", "SELL"), side("EQ", "BUY")]));
}

#[test]
fn expiry_counts_days_to_next_thursday() {
    // 2024-05-16 00:00 UTC is a Thursday.
    let thu = 1715817600;
    assert_eq!(days_to_expiry(thu), Some(0));
    assert_eq!(days_to_expiry(1715856000), Some(0));
    assert_eq!(days_to_expiry(thu + 86400), Some(6)); // Friday
    assert_eq!(days_to_expiry(thu - 86400), Some(1)); // Wednesday
    assert_eq!(days_to_expiry(thu - 3 * 86400), Some(3)); // Monday
    assert_eq!(days_to_expiry(-1), Some(1)); // 1969-12-31 23:59:59 UTC, a Wednesday
    assert_eq!(days_until_thursday(3), 0);
    assert_eq!(days_until_thursday(4), 6);
    assert_eq!(days_until_thursday(0), 3);
}

#[test]
fn next_bar_decision_waits_for_its_bar() {
    let mut s: FillScheduler<&str> = FillScheduler::new(3);
    assert!(matches!(s.decide(0, 1, "open"), Dispatch::Deferred));
    assert!(s.has_pending());
    assert_eq!(s.take_due(0), None);
    assert_eq!(s.take_due(1), Some("open"));
    assert!(!s.has_pending());
    // decision on the last bar has no next bar: dropped, never filled
    assert!(matches!(s.decide(2, 3, "late"), Dispatch::Dropped));
    assert!(!s.has_pending());
}

#[test]
fn same_bar_decision_executes_now() {
    let mut s: FillScheduler<u8> = FillScheduler::new(2);
    match s.decide(1, 1, 9) {
        Dispatch::Now(x) => assert_eq!(x, 9),
        _ => panic!("expected an immediate fill"),
    }
    assert!(!s.has_pending());
}

#[test]
fn lifecycle_opens_only_when_flat() {
    assert_eq!(step(None, SignalKind::Buy, 5), Step::Open(PositionKind::Long));
    assert_eq!(step(None, SignalKind::Buy, 0), Step::Hold);
    assert_eq!(step(Some(PositionKind::Long), SignalKind::Buy, 5), Step::Hold);
    assert_eq!(step(None, SignalKind::OpenPosition, 2), Step::Open(PositionKind::Spread));
    assert_eq!(step(Some(PositionKind::Spread), SignalKind::OpenPosition, 2), Step::Hold);
}

#[test]
fn lifecycle_sell_closes_only_long() {
    assert_eq!(step(Some(PositionKind::Long), SignalKind::Sell, 0), Step::Close(PositionKind::Long));
    assert_eq!(step(Some(PositionKind::Spread), SignalKind::Sell, 0), Step::Hold);
    assert_eq!(step(None, SignalKind::Sell, 0), Step::Hold);
    assert_eq!(
        step(Some(PositionKind::Spread), SignalKind::CloseAll, 0),
        Step::Close(PositionKind::Spread)
    );
    assert_eq!(
        position_after(Some(PositionKind::Spread), Step::Close(PositionKind::Spread)),
        None
    );
    assert_eq!(position_after(None, Step::Open(PositionKind::Long)), Some(PositionKind::Long));
    assert_eq!(position_kind("LONG"), PositionKind::Long);
    assert_eq!(position_kind("SPREAD"), PositionKind::Spread);
    assert_eq!(position_kind("SHORT"), PositionKind::Other);
}

#[test]
fn bar_timestamps_parse_as_utc() {
    assert_eq!(bar_timestamp("2024-05-16 00:00:00"), 1715817600);
    assert_eq!(bar_timestamp("2024-05-16 10:40:00"), 1715856000);
    assert_eq!(bar_timestamp("1970-01-01 00:00:01"), 1);
    // unparseable text reads as the epoch
    assert_eq!(bar_timestamp("16/05/2024"), 0);
    assert_eq!(bar_timestamp(""), 0);
}

#[test]
fn report_dates_are_utc() {
    assert_eq!(date_label(1715856000), "2024-05-16");
    assert_eq!(date_minute_label(1715856000), "2024-05-16 10:40");
    assert_eq!(date_label(-1), "1969-12-31");
    // instants chrono cannot represent fall back to the epoch
    assert_eq!(date_label(i64::MAX), "1970-01-01");
    assert_eq!(date_minute_label(i64::MIN), "1970-01-01 00:00");
}

#[test]
fn direction_labels_read_back() {
    assert_eq!(direction_label(PositionKind::Long), Some("LONG"));
    assert_eq!(direction_label(PositionKind::Spread), Some("SPREAD"));
    assert_eq!(direction_label(PositionKind::Other), None);
    for k in [PositionKind::Long, PositionKind::Spread] {
        assert_eq!(position_kind(direction_label(k).unwrap()), k);
    }
}

#[test]
fn expiry_at_the_ends_of_the_calendar() {
    // the last Thursday of the calendar is still an expiry day
    assert_eq!(days_to_expiry(LAST_EXPIRY_SECOND), Some(0));
    // from the Friday after it the next Thursday lies past the calendar
    assert_eq!(days_to_expiry(LAST_EXPIRY_SECOND + 1), None);
    assert_eq!(days_to_expiry(MAX_CALENDAR_SECOND), None);
    // instants chrono cannot represent count as the epoch, a Thursday
    assert_eq!(days_to_expiry(MAX_CALENDAR_SECOND + 1), Some(0));
    assert_eq!(days_to_expiry(i64::MAX), Some(0));
    assert_eq!(days_to_expiry(i64::MIN), Some(0));
    assert_eq!(MAX_CALENDAR_SECOND, MAX_EPOCH_DAY * 86400 + 86399);
}

#[test]
fn calendar_range_matches_chrono() {
    assert_eq!(date_label(MAX_CALENDAR_SECOND), "+262142-12-31");
    assert_eq!(date_label(MAX_CALENDAR_SECOND + 1), "1970-01-01");
    assert_eq!(date_label(MIN_EPOCH_DAY * 86400), "-262143-01-01");
    assert_eq!(date_label(MIN_EPOCH_DAY * 86400 - 1), "1970-01-01");
}
