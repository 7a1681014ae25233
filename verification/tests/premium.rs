use anon_chat::commands::referral_visit;
use anon_chat::database::Database;
use anon_chat::models::gender::Gender;
use anon_chat::premium::{
    expire, promotion, referrals_remaining, reward, reward_given, Premium, DAY, EARLIEST, LATEST,
    PREMIUM_DAYS, REFERRALS_FOR_PREMIUM, WEEK,
};
use chrono::{DateTime, Utc};

#[test]
fn a_week_has_its_seconds() {
    assert_eq!(DAY, 24 * 60 * 60);
    assert_eq!(WEEK, 7 * 24 * 60 * 60);
    assert_eq!(PREMIUM_DAYS * DAY, WEEK);
    assert_eq!(REFERRALS_FOR_PREMIUM, 10);
}

#[test]
fn the_calendar_has_the_moments_from_earliest_to_latest() {
    assert_eq!(DateTime::<Utc>::MIN_UTC.timestamp(), EARLIEST);
    assert_eq!(DateTime::<Utc>::MAX_UTC.timestamp(), LATEST);
    assert!(DateTime::from_timestamp(EARLIEST, 0).is_some());
    assert!(DateTime::from_timestamp(EARLIEST - 1, 0).is_none());
    assert!(DateTime::from_timestamp(LATEST, 0).is_some());
    assert!(DateTime::from_timestamp(LATEST + 1, 0).is_none());
}

#[test]
fn reward_grows_a_premium_up_to_the_last_moment() {
    let grown = |until: i64, now: i64| reward(9, Premium { active: true, until }, now).map(|p| p.until);
    assert_eq!(grown(LATEST - WEEK, 5), Some(LATEST));
    assert_eq!(grown(LATEST - WEEK + 1, 5), Some(5 + WEEK));
    assert_eq!(grown(LATEST, 5), Some(5 + WEEK));
    assert_eq!(grown(EARLIEST, 5), Some(EARLIEST + WEEK));
    assert_eq!(grown(EARLIEST - 1, 5), Some(5 + WEEK));
    assert_eq!(grown(EARLIEST - WEEK, 5), Some(5 + WEEK));
    assert_eq!(grown(i64::MIN, 5), Some(5 + WEEK));
    assert_eq!(grown(0, 5), Some(WEEK));
    assert_eq!(grown(-WEEK, 5), Some(0));
    assert_eq!(grown(LATEST, LATEST - WEEK), Some(LATEST));
    assert_eq!(grown(LATEST, LATEST - WEEK + 1), None);
    assert_eq!(grown(LATEST, EARLIEST - 1), None);
    assert_eq!(grown(LATEST, EARLIEST), Some(EARLIEST + WEEK));
}

#[test]
fn promotion_runs_in_march_and_april() {
    assert_eq!(promotion(3, 1_000), Some(Premium { active: true, until: 605_800 }));
    assert_eq!(promotion(4, 0), Some(Premium { active: true, until: 604_800 }));
    assert_eq!(promotion(2, 1_000), None);
    assert_eq!(promotion(5, 1_000), None);
    assert_eq!(promotion(12, 1_000), None);
    assert_eq!(promotion(3, i64::MAX), None);
    assert_eq!(promotion(3, i64::MAX - 604_800), Some(Premium { active: true, until: i64::MAX }));
}

#[test]
fn premium_runs_out_after_its_end() {
    let p = Premium { active: true, until: 100 };
    assert_eq!(expire(p, 100), (p, false));
    assert_eq!(expire(p, 99), (p, false));
    assert_eq!(expire(p, 101), (Premium { active: false, until: 0 }, true));
    let none = Premium { active: false, until: 100 };
    assert_eq!(expire(none, 500), (none, false));
}

#[test]
fn referrals_count_down() {
    assert_eq!(referrals_remaining(0), 9);
    assert_eq!(referrals_remaining(8), 1);
    assert_eq!(referrals_remaining(9), 0);
    assert_eq!(referrals_remaining(10), 0);
    assert_eq!(referrals_remaining(u32::MAX), 0);
}

#[test]
fn reward_comes_with_the_tenth_referral() {
    let none = Premium { active: false, until: 0 };
    let some = Premium { active: true, until: 1_700_000_000 };
    assert_eq!(reward(8, none, 1_000), None);
    assert_eq!(reward(8, some, 1_000), None);
    assert_eq!(reward(9, none, 1_000), Some(Premium { active: true, until: 1_001 }));
    assert_eq!(reward(9, some, 1_000), Some(Premium { active: true, until: 1_700_604_800 }));
    assert_eq!(reward(20, some, 1_000), Some(Premium { active: true, until: 1_700_604_800 }));
    assert_eq!(reward(u32::MAX, none, i64::MAX), None);
    let lost = Premium { active: true, until: i64::MAX };
    assert_eq!(reward(9, lost, 1_000), Some(Premium { active: true, until: 605_800 }));
    assert_eq!(reward(9, lost, i64::MAX), None);
}

#[test]
fn reward_given_goes_by_the_ends_handed_in() {
    let none = Premium { active: false, until: 0 };
    let some = Premium { active: true, until: 50 };
    assert_eq!(reward_given(9, some, 10, Some(77), Some(88)), Some(Premium { active: true, until: 77 }));
    assert_eq!(reward_given(9, some, 10, None, Some(88)), Some(Premium { active: true, until: 88 }));
    assert_eq!(reward_given(9, some, 10, None, None), None);
    assert_eq!(reward_given(9, none, 10, Some(77), Some(88)), Some(Premium { active: true, until: 11 }));
    assert_eq!(reward_given(3, some, 10, Some(77), Some(88)), None);
}

#[test]
fn referral_visits_are_counted_once_per_new_visitor() {
    let mut db = Database::new();
    assert_eq!(db.register(1, 20, "a".to_string(), Gender::Male), Ok(()));
    assert_eq!(db.register(2, 20, "b".to_string(), Gender::Male), Ok(()));
    assert_eq!(referral_visit(&mut db, 1, 50), Some(0));
    assert_eq!(referral_visit(&mut db, 1, 51), Some(1));
    assert_eq!(db.get_user(1).unwrap().referrals, 2);
    assert_eq!(referral_visit(&mut db, 1, 2), None);
    assert_eq!(referral_visit(&mut db, 1, 1), None);
    assert_eq!(referral_visit(&mut db, 9, 50), None);
    assert_eq!(db.get_user(1).unwrap().referrals, 2);
    assert_eq!(db.get_user(2).unwrap().referrals, 0);
}
