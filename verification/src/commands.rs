use crate::database::Database;
use crate::error::Error;
use crate::messages::{receive_message, relay_step, Incoming};
use crate::notice::{notify, refusal, refusal_notice, reply, tell, Notice, Notification, Step};
use crate::state::State;
use crate::user_state::UserState;
use vstd::prelude::*;

verus! {

/// What is delivered when a dialog ends: the user who left and the partner
/// left behind are told, and each may rate the other. Nothing where no
/// dialog ended.
pub open spec fn parting(user: i64, stopped: Option<i64>) -> Seq<Notification> {
    match stopped {
        Some(partner) => seq![
            tell(user, Notice::DialogStopped { partner }),
            tell(partner, Notice::PartnerLeft { partner: user }),
        ],
        None => seq![],
    }
}

/// What is delivered when a search ends: both are told of each other where
/// a partner was found, the seeker is told to wait where none was.
pub open spec fn meeting(user: i64, matched: Option<i64>) -> Seq<Notification> {
    match matched {
        Some(partner) => seq![
            tell(user, Notice::PartnerFound { partner }),
            tell(partner, Notice::PartnerFound { partner: user }),
        ],
        None => seq![tell(user, Notice::Searching)],
    }
}

/// The dialogue state after a search: talking to the partner found, or
/// waiting.
pub open spec fn searching_state(matched: Option<i64>) -> State {
    match matched {
        Some(partner) => State::Dialog { interlocutor: partner },
        None => State::Search,
    }
}

/// The notifications of a dialog that ended, if one did.
pub fn parting_notices(user: i64, stopped: Option<i64>) -> (r: Vec<Notification>)
    ensures
        r@ == parting(user, stopped),
{
    let mut out: Vec<Notification> = Vec::new();
    match stopped {
        Some(partner) => {
            out.push(notify(user, Notice::DialogStopped { partner }));
            out.push(notify(partner, Notice::PartnerLeft { partner: user }));
        },
        None => {},
    }
    out
}

/// Adds the notifications of a search that ended to `out`.
pub fn push_meeting_notices(out: &mut Vec<Notification>, user: i64, matched: Option<i64>)
    ensures
        final(out)@ == old(out)@ + meeting(user, matched),
{
    match matched {
        Some(partner) => {
            out.push(notify(user, Notice::PartnerFound { partner }));
            out.push(notify(partner, Notice::PartnerFound { partner: user }));
        },
        None => {
            out.push(notify(user, Notice::Searching));
        },
    }
    assert(out@ =~= old(out)@ + meeting(user, matched));
}

/// The dialogue state after a search.
pub fn state_after_search(matched: Option<i64>) -> (r: State)
    ensures
        r == searching_state(matched),
{
    match matched {
        Some(partner) => State::Dialog { interlocutor: partner },
        None => State::Search,
    }
}

/// The first contact. A user without a profile is greeted and asked for
/// their age; a banned user is told so; anybody else is greeted and stands
/// where the store has them.
pub fn start(db: &Database, user_id: i64) -> (r: Step)
    requires
        db.wf(),
    ensures
        match db@.may_act(user_id) {
            Err(Error::NotRegistered) => r.state == Some(State::ReceiveAge) && r.out@ == seq![
                tell(user_id, Notice::Welcome),
                tell(user_id, Notice::AskAge),
            ],
            Err(_) => r.state == Some(db@.resting_state(user_id)) && r.out@ == seq![
                tell(user_id, Notice::Banned),
            ],
            Ok(_) => r.state == Some(db@.resting_state(user_id)) && r.out@ == seq![
                tell(user_id, Notice::Welcome),
            ],
        },
{
    match db.may_act(user_id) {
        Err(Error::NotRegistered) => {
            let mut out: Vec<Notification> = Vec::new();
            out.push(notify(user_id, Notice::Welcome));
            out.push(notify(user_id, Notice::AskAge));
            Step { state: Some(State::ReceiveAge), out }
        },
        Err(_) => reply(Some(db.resting_state(user_id)), user_id, Notice::Banned),
        Ok(_) => reply(Some(db.resting_state(user_id)), user_id, Notice::Welcome),
    }
}

/// What a user who asks for a search is told, and where they go: to the
/// choice of the partner's gender when they may search, nowhere when they
/// wait or talk already, and to where the store has them when they may not
/// act.
pub open spec fn search_prompt(db: crate::store::DatabaseView, user_id: i64) -> (
    Option<State>,
    Notice,
) {
    match db.may_act(user_id) {
        Err(e) => (Some(db.resting_state(user_id)), refusal(e, Notice::Failure)),
        Ok(_) => match db.user(user_id).state {
            UserState::Dialog => (None, Notice::StopDialogFirst),
            UserState::Search => (None, Notice::BusySearching),
            _ => (Some(State::SearchChooseGender), Notice::AskSearchGender),
        },
    }
}

/// A user asks for a search: see `search_prompt`.
pub fn search(db: &Database, user_id: i64) -> (r: Step)
    requires
        db.wf(),
    ensures
        r.state == search_prompt(db@, user_id).0,
        r.out@ == seq![tell(user_id, search_prompt(db@, user_id).1)],
{
    match db.may_act(user_id) {
        Err(e) => reply(
            Some(db.resting_state(user_id)),
            user_id,
            refusal_notice(e, Notice::Failure),
        ),
        Ok(_) => match db.get_user(user_id) {
            Some(u) => match u.state {
                UserState::Dialog => reply(None, user_id, Notice::StopDialogFirst),
                UserState::Search => reply(None, user_id, Notice::BusySearching),
                _ => reply(Some(State::SearchChooseGender), user_id, Notice::AskSearchGender),
            },
            None => reply(Some(State::Start), user_id, Notice::RegisterFirst),
        },
    }
}

/// A message of a user who is neither waiting nor talking, as far as the
/// dialogue knows. It is treated like any message: passed on where the store
/// has the user in a dialog after all, answered otherwise. A search is asked
/// for by its command alone, never by what a text holds.
pub fn idle(db: &Database, user_id: i64, message: Incoming) -> (r: Step)
    requires
        db.wf(),
    ensures
        (r.state, r.out@) == relay_step(db@, user_id, message),
{
    receive_message(db, user_id, message)
}

/// What leaving a dialog does: the store after it, the state the user goes
/// to, and what is delivered. On success both are free, the user and the
/// partner are told, and each may rate the other; a user who is not talking
/// is told so and nothing changes.
pub open spec fn stop_step(db: crate::store::DatabaseView, user_id: i64) -> (
    crate::store::DatabaseView,
    Option<State>,
    Seq<Notification>,
) {
    match db.stop_dialog(user_id).1 {
        Ok(partner) => (
            db.stop_dialog(user_id).0,
            Some(State::Idle),
            parting(user_id, Some(partner)),
        ),
        Err(e) => (
            db,
            Some(db.resting_state(user_id)),
            seq![tell(user_id, refusal(e, Notice::NotInDialog))],
        ),
    }
}

/// A user leaves their dialog: see `stop_step`.
pub fn stop(db: &mut Database, user_id: i64) -> (r: Step)
    requires
        old(db).wf(),
    ensures
        final(db).wf(),
        (final(db)@, r.state, r.out@) == stop_step(old(db)@, user_id),
        old(db)@.consistent() ==> final(db)@.consistent(),
        old(db)@.stop_dialog_facts(user_id),
{
    let rest = db.resting_state(user_id);
    match db.stop_dialog(user_id) {
        Ok(partner) => Step { state: Some(State::Idle), out: parting_notices(user_id, Some(partner)) },
        Err(e) => reply(Some(rest), user_id, refusal_notice(e, Notice::NotInDialog)),
    }
}

/// A user cancels their search. Unless they are banned they are told that
/// the search is cancelled, whether they were waiting or not, and stand
/// where the store has them afterwards.
pub fn cancel(db: &mut Database, user_id: i64) -> (r: Step)
    requires
        old(db).wf(),
    ensures
        final(db).wf(),
        final(db)@ == old(db)@.cancel_search(user_id).0,
        old(db)@.consistent() ==> final(db)@.consistent(),
        old(db)@.cancel_search_facts(user_id),
        r.state == Some(final(db)@.resting_state(user_id)),
        match old(db)@.cancel_search(user_id).1 {
            Ok(_) => r.out@ == seq![tell(user_id, Notice::SearchCancelled)],
            Err(e) => r.out@ == seq![tell(user_id, refusal(e, Notice::Failure))],
        },
{
    match db.cancel_search(user_id) {
        Ok(_) => reply(Some(db.resting_state(user_id)), user_id, Notice::SearchCancelled),
        Err(e) => reply(Some(db.resting_state(user_id)), user_id, refusal_notice(e, Notice::Failure)),
    }
}

/// What a user whose `next` was refused as an invalid transition is told:
/// that a search is under way when they wait, that there are no earlier
/// filters otherwise.
pub open spec fn next_refusal(db: crate::store::DatabaseView, user_id: i64) -> Notice {
    if db.has_user(user_id) && db.user(user_id).state == UserState::Search {
        Notice::BusySearching
    } else {
        Notice::NoPreviousFilters
    }
}

/// A user moves on: their dialog ends, if they are in one, and a search
/// with the filters of their latest search begins. Delivered are the
/// notifications of the parting, then those of the search. A refusal
/// changes nothing and is told to the user.
pub fn next(db: &mut Database, user_id: i64) -> (r: Step)
    requires
        old(db).wf(),
    ensures
        final(db).wf(),
        final(db)@ == old(db)@.advance_next(user_id).0,
        old(db)@.consistent() ==> final(db)@.consistent(),
        old(db)@.advance_next_facts(user_id),
        match old(db)@.advance_next(user_id).1 {
            Ok(o) => r.state == Some(searching_state(o.matched)) && r.out@ == parting(
                user_id,
                o.stopped,
            ) + meeting(user_id, o.matched),
            Err(e) => r.state == Some(old(db)@.resting_state(user_id)) && r.out@ == seq![
                tell(user_id, refusal(e, next_refusal(old(db)@, user_id))),
            ],
        },
{
    let rest = db.resting_state(user_id);
    let waiting = match db.get_user(user_id) {
        Some(u) => u.state == UserState::Search,
        None => false,
    };
    match db.advance_next(user_id) {
        Ok(o) => {
            let mut out = parting_notices(user_id, o.stopped);
            push_meeting_notices(&mut out, user_id, o.matched);
            Step { state: Some(state_after_search(o.matched)), out }
        },
        Err(e) => {
            let invalid = if waiting {
                Notice::BusySearching
            } else {
                Notice::NoPreviousFilters
            };
            reply(Some(rest), user_id, refusal_notice(e, invalid))
        },
    }
}

/// What a visit by the referral link of `referrer` does. It counts when
/// `referrer` has a profile and `visitor` has none; then the counter of
/// `referrer` grows by one and the answer is what it was before. It does
/// not count, and nothing changes, in every other case, and where the
/// counter is at its limit.
pub open spec fn referral_counted(db: crate::store::DatabaseView, referrer: i64, visitor: i64) -> (
    crate::store::DatabaseView,
    Option<u32>,
) {
    if db.has_user(referrer) && !db.has_user(visitor) && db.increase_referral_count(referrer).1
        is Ok {
        (db.increase_referral_count(referrer).0, Some(db.user(referrer).referrals))
    } else {
        (db, None)
    }
}

/// A visit by the referral link of `referrer`: see `referral_counted`.
pub fn referral_visit(db: &mut Database, referrer: i64, visitor: i64) -> (r: Option<u32>)
    requires
        old(db).wf(),
    ensures
        final(db).wf(),
        (final(db)@, r) == referral_counted(old(db)@, referrer, visitor),
        old(db)@.consistent() ==> final(db)@.consistent(),
{
    match db.get_user(referrer) {
        None => None,
        Some(u) => if db.has_user(visitor) {
            None
        } else {
            proof {
                crate::frames::lemma_profile_id(db@.users, referrer);
                db@.lemma_put_user(
                    crate::models::user::UserView {
                        referrals: (u.referrals + 1) as u32,
                        ..db@.user(referrer)
                    },
                );
            }
            match db.increase_referral_count(referrer) {
                Ok(_) => Some(u.referrals),
                Err(_) => None,
            }
        },
    }
}

} // verus!
