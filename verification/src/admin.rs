use crate::database::Database;
use crate::error::Error;
use crate::models::gender::Gender;
use crate::notice::{
    reply, tell, Content, Notice, Notification, Payload, Recipient, Step,
};
use crate::store::DatabaseView;
use crate::text::{parse_i64, parsed_i64};
use vstd::prelude::*;

verus! {

/// The figures of the store.
#[derive(Debug, Clone, Copy, PartialEq, Eq, Structural)]
pub struct Stats {
    pub users: usize,
    pub males: usize,
    pub females: usize,
    pub chats: usize,
    pub queue: usize,
    pub queued_males: usize,
    pub queued_females: usize,
}

/// The figures of the store, for the administrator only.
pub fn admin(db: &Database, is_admin: bool) -> (r: Option<Stats>)
    requires
        db.wf(),
    ensures
        r is Some == is_admin,
        r matches Some(s) ==> {
            &&& s.users == db@.users.len()
            &&& s.males == db@.gender_count(Gender::Male, db@.users.len())
            &&& s.females == db@.gender_count(Gender::Female, db@.users.len())
            &&& s.chats == db@.chats.len()
            &&& s.queue == db@.queue.len()
            &&& s.queued_males == db@.gender_queue_count(Gender::Male, db@.queue.len())
            &&& s.queued_females == db@.gender_queue_count(Gender::Female, db@.queue.len())
        },
{
    if is_admin {
        Some(
            Stats {
                users: db.get_total_users(),
                males: db.get_male_count(),
                females: db.get_female_count(),
                chats: db.get_total_chats(),
                queue: db.get_queue_count(),
                queued_males: db.get_male_queue_count(),
                queued_females: db.get_female_queue_count(),
            },
        )
    } else {
        None
    }
}

/// The user a command names: what its first word after the command is read
/// as, if there is such a word and it is read as a number.
pub open spec fn named_target(argument: Option<&str>) -> Option<i64> {
    match argument {
        Some(a) => parsed_i64(a@),
        None => None,
    }
}

/// The user a command names, given the first word after the command.
pub fn read_target(argument: Option<&str>) -> (r: Option<i64>)
    ensures
        r == named_target(argument),
{
    match argument {
        Some(a) => parse_i64(a),
        None => None,
    }
}

/// What the administrator is told after an action on a user: that it is
/// done, or that it failed.
pub open spec fn verdict(result: Result<(), Error>) -> Notice {
    match result {
        Ok(_) => Notice::Done,
        Err(_) => Notice::Failure,
    }
}

/// The answer to an action of the administrator on `target`, carried out
/// with `result`. Who is not the administrator gets no answer; a command
/// that names no user is asked for again.
pub open spec fn answered(
    user_id: i64,
    is_admin: bool,
    target: Option<i64>,
    result: Result<(), Error>,
) -> Seq<Notification> {
    if !is_admin {
        seq![]
    } else if target is None {
        seq![tell(user_id, Notice::InvalidInput)]
    } else {
        seq![tell(user_id, verdict(result))]
    }
}

/// What an action of the administrator comes to, where `outcome` is what
/// the action does to the user named: that, for the administrator and a
/// command that names a user; nothing, and no failure, otherwise.
pub open spec fn acted(
    before: DatabaseView,
    is_admin: bool,
    target: Option<i64>,
    outcome: (DatabaseView, Result<(), Error>),
) -> (DatabaseView, Result<(), Error>) {
    if is_admin && target is Some {
        outcome
    } else {
        (before, Ok(()))
    }
}

/// An action of the administrator as a whole: the store after it and what
/// is delivered.
pub open spec fn admin_step(
    before: DatabaseView,
    user_id: i64,
    is_admin: bool,
    target: Option<i64>,
    outcome: (DatabaseView, Result<(), Error>),
) -> (DatabaseView, Seq<Notification>) {
    (
        acted(before, is_admin, target, outcome).0,
        answered(user_id, is_admin, target, acted(before, is_admin, target, outcome).1),
    )
}

fn answer(user_id: i64, is_admin: bool, target: Option<i64>, result: Result<(), Error>) -> (r: Step)
    ensures
        r.state is None,
        r.out@ == answered(user_id, is_admin, target, result),
{
    if !is_admin {
        Step { state: None, out: Vec::new() }
    } else if target.is_none() {
        reply(None, user_id, Notice::InvalidInput)
    } else {
        match result {
            Ok(_) => reply(None, user_id, Notice::Done),
            Err(_) => reply(None, user_id, Notice::Failure),
        }
    }
}

/// The administrator bans `target`.
pub fn ban(db: &mut Database, user_id: i64, is_admin: bool, target: Option<i64>) -> (r: Step)
    requires
        old(db).wf(),
    ensures
        final(db).wf(),
        old(db)@.consistent() ==> final(db)@.consistent(),
        r.state is None,
        (final(db)@, r.out@) == admin_step(
            old(db)@,
            user_id,
            is_admin,
            target,
            old(db)@.set_banned(target->Some_0, true),
        ),
        is_admin && target is Some ==> old(db)@.set_banned_facts(target->Some_0, true),
{
    let result = match target {
        Some(t) => if is_admin {
            proof {
                db@.lemma_set_banned(t, true);
            }
            db.ban_user(t)
        } else {
            Ok(())
        },
        None => Ok(()),
    };
    answer(user_id, is_admin, target, result)
}

/// The administrator lifts the ban of `target`.
pub fn unban(db: &mut Database, user_id: i64, is_admin: bool, target: Option<i64>) -> (r: Step)
    requires
        old(db).wf(),
    ensures
        final(db).wf(),
        old(db)@.consistent() ==> final(db)@.consistent(),
        r.state is None,
        (final(db)@, r.out@) == admin_step(
            old(db)@,
            user_id,
            is_admin,
            target,
            old(db)@.set_banned(target->Some_0, false),
        ),
        is_admin && target is Some ==> old(db)@.set_banned_facts(target->Some_0, false),
{
    let result = match target {
        Some(t) => if is_admin {
            proof {
                db@.lemma_set_banned(t, false);
            }
            db.unban_user(t)
        } else {
            Ok(())
        },
        None => Ok(()),
    };
    answer(user_id, is_admin, target, result)
}

/// The administrator purges `target` from the store.
pub fn delete_user(db: &mut Database, user_id: i64, is_admin: bool, target: Option<i64>) -> (r:
    Step)
    requires
        old(db).wf(),
    ensures
        final(db).wf(),
        old(db)@.consistent() ==> final(db)@.consistent(),
        r.state is None,
        (final(db)@, r.out@) == admin_step(
            old(db)@,
            user_id,
            is_admin,
            target,
            old(db)@.purge(target->Some_0),
        ),
        is_admin && target is Some ==> old(db)@.purge_facts(target->Some_0),
{
    let result = match target {
        Some(t) => if is_admin {
            db.purge(t)
        } else {
            Ok(())
        },
        None => Ok(()),
    };
    answer(user_id, is_admin, target, result)
}

/// A message of the administrator to everybody: one copy of `text` for each
/// profile, in the order of the profiles. Nothing for anybody else's
/// message.
pub fn admin_message(db: &Database, is_admin: bool, text: &str) -> (r: Vec<Notification>)
    ensures
        !is_admin ==> r@.len() == 0,
        is_admin ==> r@.len() == db@.users.len(),
        forall|i: int|
            0 <= i < r@.len() ==> (#[trigger] r@[i]).recipient == Recipient::User(
                db@.users[i].id,
            ) && r@[i].reply is None && (r@[i].content matches Content::Forward(
                Payload::Text(t),
            ) && t@ == text@),
{
    let mut out: Vec<Notification> = Vec::new();
    if is_admin {
        let users = db.get_all_users();
        let mut i: usize = 0;
        while i < users.len()
            invariant
                i <= users.len(),
                users@.map_values(|u: crate::models::user::User| u@) == db@.users,
                out@.len() == i,
                forall|k: int|
                    0 <= k < i ==> (#[trigger] out@[k]).recipient == Recipient::User(
                        db@.users[k].id,
                    ) && out@[k].reply is None && (out@[k].content matches Content::Forward(
                        Payload::Text(t),
                    ) && t@ == text@),
            decreases users.len() - i,
        {
            assert(db@.users[i as int] == users@[i as int]@);
            out.push(
                Notification {
                    recipient: Recipient::User(users[i].id),
                    content: Content::Forward(Payload::Text(text.to_owned())),
                    reply: None,
                },
            );
            i += 1;
        }
    }
    out
}

} // verus!
