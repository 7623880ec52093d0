use cardboard::salt::{
    generate_salt, needs_rotation, plan_daily_salt, plan_daily_salt_at, rotate_daily_salt, DailySaltPlan, DailySaltRecord,
};
use cardboard::schema::{DAILY_SALT_ROW_ID, SALT_COLUMN_BYTES};
use cardboard::time::{more_than_a_day_between, Timestamp};

fn at(secs: i64, nanos: u32) -> Timestamp {
    Timestamp { secs, nanos }
}

fn record(created_at: Timestamp) -> Option<DailySaltRecord> {
    Some(DailySaltRecord { id: 1, value: vec![5; 16], created_at })
}

#[test]
fn salts_are_sixteen_random_bytes() {
    let a = generate_salt();
    let b = generate_salt();
    assert_eq!(a.len(), SALT_COLUMN_BYTES);
    assert_eq!(b.len(), 16);
    assert_ne!(a, b);
}

#[test]
fn missing_daily_salt_needs_rotation() {
    assert!(needs_rotation(&None, at(0, 0)));
}

#[test]
fn daily_salt_is_kept_for_exactly_one_day() {
    let created = at(1_700_000_000, 500);
    assert!(!needs_rotation(&record(created), created));
    assert!(!needs_rotation(&record(created), at(1_700_000_000 + 86_400, 500)));
    assert!(needs_rotation(&record(created), at(1_700_000_000 + 86_400, 501)));
    assert!(needs_rotation(&record(created), at(1_700_000_000 + 2 * 86_400, 0)));
    // a salt dated in the future is kept
    assert!(!needs_rotation(&record(created), at(1_600_000_000, 0)));
}

#[test]
fn day_comparison_counts_nanoseconds() {
    assert!(!more_than_a_day_between(at(0, 0), at(86_400, 0)));
    assert!(more_than_a_day_between(at(0, 0), at(86_400, 1)));
    // a leap-second reading carries its extra second
    assert!(more_than_a_day_between(at(0, 0), at(86_399, 1_000_000_001)));
    assert!(!more_than_a_day_between(at(i64::MIN, 0), at(i64::MIN + 86_400, 0)));
    assert!(more_than_a_day_between(at(i64::MIN, 0), at(i64::MAX, 999_999_999)));
}

#[test]
fn rotated_salt_is_a_fresh_row() {
    let now = at(1_234, 5);
    let r = rotate_daily_salt(now);
    assert_eq!(r.id, DAILY_SALT_ROW_ID);
    assert_eq!(r.value.len(), 16);
    assert_eq!(r.created_at.secs, 1_234);
    assert_eq!(r.created_at.nanos, 5);
    assert!(!needs_rotation(&Some(r), at(1_234 + 86_400, 5)));
}

#[test]
fn current_daily_salt_is_reused() {
    match plan_daily_salt_at(record(at(1_000, 0)), at(1_000 + 86_400, 0)) {
        DailySaltPlan::Reuse(value) => assert_eq!(value, vec![5; 16]),
        DailySaltPlan::Rotate(_) => panic!("a current salt must be reused"),
    }
}

#[test]
fn stale_daily_salt_is_replaced() {
    match plan_daily_salt_at(record(at(1_000, 0)), at(1_001 + 86_400, 0)) {
        DailySaltPlan::Reuse(_) => panic!("a stale salt must be replaced"),
        DailySaltPlan::Rotate(r) => {
            assert_eq!((r.id, r.value.len(), r.created_at), (1, 16, at(1_001 + 86_400, 0)));
        },
    }
}

#[test]
fn missing_daily_salt_is_created_at_the_clock_time() {
    match plan_daily_salt(None) {
        DailySaltPlan::Reuse(_) => panic!("a missing salt must be created"),
        DailySaltPlan::Rotate(r) => {
            assert_eq!((r.id, r.value.len()), (1, 16));
            let clock = chrono::Utc::now().timestamp();
            assert!((r.created_at.secs - clock).abs() <= 5);
        },
    }
}

#[test]
fn fresh_daily_salt_is_reused_by_the_clock() {
    let fresh = DailySaltRecord { id: 1, value: vec![6; 16], created_at: at(chrono::Utc::now().timestamp(), 0) };
    match plan_daily_salt(Some(fresh)) {
        DailySaltPlan::Reuse(value) => assert_eq!(value, vec![6; 16]),
        DailySaltPlan::Rotate(_) => panic!("a salt created just now must be reused"),
    }
}
