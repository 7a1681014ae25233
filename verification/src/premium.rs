use vstd::prelude::*;

verus! {

/// The seconds of a week.
pub const WEEK: i64 = 604800;

/// How many users one has to refer to earn a premium.
pub const REFERRALS_FOR_PREMIUM: u32 = 10;

/// A premium: whether the user has one, and the second, counted from the
/// start of 1970, at which it ends.
#[derive(Debug, Clone, Copy, PartialEq, Eq, Structural)]
pub struct Premium {
    pub active: bool,
    pub until: i64,
}

/// The seconds of a day.
pub const DAY: i64 = 86400;

/// The days a premium that was earned lasts.
pub const PREMIUM_DAYS: i64 = 7;

/// The first second the calendar library has a moment for: the start of the
/// year -262143, in which the year before the year 1 is the year 0.
pub const EARLIEST: i64 = -8334601228800;

/// The last second the calendar library has a moment for: the end of the
/// year 262142.
pub const LATEST: i64 = 8210266876799;

/// Whether the calendar library has a moment for `timestamp`.
pub open spec fn has_moment(timestamp: int) -> bool {
    EARLIEST <= timestamp <= LATEST
}

/// The second `days` days after `timestamp`, where the calendar library has
/// both moments.
pub open spec fn days_after(timestamp: i64, days: i64) -> Option<i64> {
    if has_moment(timestamp as int) && has_moment(timestamp + days * DAY) {
        Some((timestamp + days * DAY) as i64)
    } else {
        None
    }
}

/// Calls `DateTime::from_timestamp`, `TimeDelta::try_days`,
/// `DateTime::checked_add_signed` and `DateTime::timestamp` of `chrono`, one
/// after the other, as no moment of that library can be held here: the
/// moment of `timestamp`, `days` days added, as a timestamp again. Assumed,
/// not proved: the result is `timestamp` and the seconds of that many days
/// where the library has a moment for both, which it has from `EARLIEST` to
/// `LATEST`; else `None`.
#[verifier::external_body]
pub(crate) fn days_later(timestamp: i64, days: i64) -> (r: Option<i64>)
    ensures
        r == days_after(timestamp, days),
{
    let start = chrono::DateTime::from_timestamp(timestamp, 0)?;
    let span = chrono::TimeDelta::try_days(days)?;
    let end = start.checked_add_signed(span)?;
    Some(end.timestamp())
}

/// The premium a registration in the month `month` at the moment `now`
/// brings: a week, in March and in April.
pub open spec fn promoted(month: u32, now: i64) -> Option<Premium> {
    if (month == 3 || month == 4) && now + WEEK <= i64::MAX {
        Some(Premium { active: true, until: (now + WEEK) as i64 })
    } else {
        None
    }
}

/// The premium a registration in the month `month` at the moment `now`
/// brings, if it brings one.
pub fn promotion(month: u32, now: i64) -> (r: Option<Premium>)
    ensures
        r == promoted(month, now),
{
    if month == 3 || month == 4 {
        match now.checked_add(WEEK) {
            Some(until) => Some(Premium { active: true, until }),
            None => None,
        }
    } else {
        None
    }
}

/// Whether a premium has run out at the moment `now`.
pub open spec fn ran_out(premium: Premium, now: i64) -> bool {
    premium.active && now > premium.until
}

/// The premium as it stands at the moment `now`, and whether it has just
/// run out: one that has is no premium any more.
pub fn expire(premium: Premium, now: i64) -> (r: (Premium, bool))
    ensures
        r.1 == ran_out(premium, now),
        r.0 == if ran_out(premium, now) {
            Premium { active: false, until: 0 }
        } else {
            premium
        },
{
    if premium.active && now > premium.until {
        (Premium { active: false, until: 0 }, true)
    } else {
        (premium, false)
    }
}

/// How many users are still to be referred, after one more was, by someone
/// who had referred `referrals` before.
pub open spec fn remaining(referrals: u32) -> int {
    if referrals + 1 >= REFERRALS_FOR_PREMIUM {
        0
    } else {
        REFERRALS_FOR_PREMIUM - (referrals + 1)
    }
}

/// How many users are still to be referred, after one more was.
pub fn referrals_remaining(referrals: u32) -> (r: u32)
    ensures
        r == remaining(referrals),
{
    if referrals >= REFERRALS_FOR_PREMIUM - 1 {
        0
    } else {
        REFERRALS_FOR_PREMIUM - (referrals + 1)
    }
}

/// The premium of someone who had referred `referrals` users and now
/// referred one more, at the moment `now`. Under the number asked for there
/// is no reward. With it, a premium that is active grows by a week, which
/// `extended` is the end of, or, where that end cannot be had, lasts a week
/// from now, which `from_now` is the end of; who had none gets one that runs
/// out in a second. `None` also where no end can be had.
pub open spec fn rewarded(
    referrals: u32,
    premium: Premium,
    now: i64,
    extended: Option<i64>,
    from_now: Option<i64>,
) -> Option<Premium> {
    if referrals + 1 < REFERRALS_FOR_PREMIUM {
        None
    } else if premium.active {
        match extended {
            Some(until) => Some(Premium { active: true, until }),
            None => match from_now {
                Some(until) => Some(Premium { active: true, until }),
                None => None,
            },
        }
    } else if now < i64::MAX {
        Some(Premium { active: true, until: (now + 1) as i64 })
    } else {
        None
    }
}

/// The premium a referral earns, given the end of the week after the
/// premium's end and the end of the week from now: see `rewarded`.
pub fn reward_given(
    referrals: u32,
    premium: Premium,
    now: i64,
    extended: Option<i64>,
    from_now: Option<i64>,
) -> (r: Option<Premium>)
    ensures
        r == rewarded(referrals, premium, now, extended, from_now),
{
    if referrals < REFERRALS_FOR_PREMIUM - 1 {
        None
    } else if premium.active {
        match extended {
            Some(until) => Some(Premium { active: true, until }),
            None => match from_now {
                Some(until) => Some(Premium { active: true, until }),
                None => None,
            },
        }
    } else {
        match now.checked_add(1) {
            Some(until) => Some(Premium { active: true, until }),
            None => None,
        }
    }
}

/// The premium a referral earns: see `rewarded`, with the ends taken from the
/// calendar.
pub fn reward(referrals: u32, premium: Premium, now: i64) -> (r: Option<Premium>)
    ensures
        r == rewarded(
            referrals,
            premium,
            now,
            days_after(premium.until, PREMIUM_DAYS),
            days_after(now, PREMIUM_DAYS),
        ),
{
    let extended = days_later(premium.until, PREMIUM_DAYS);
    let from_now = days_later(now, PREMIUM_DAYS);
    reward_given(referrals, premium, now, extended, from_now)
}

} // verus!
