use crate::commands::{cancel, meeting, push_meeting_notices, searching_state, state_after_search};
use crate::database::Database;
use crate::error::Error;
use crate::messages::{busy, busy_notice, edit_outcome, end_edit};
use crate::models::chat_type::ChatType;
use crate::models::gender::Gender;
use crate::notice::{notify, refusal, refusal_notice, reply, tell, Notice, Notification, Step};
use crate::state::State;
use crate::text::{
    contains, find_second_field, occurs_in, parse_i64, parsed_i64, second_field, str_eq,
};
use vstd::prelude::*;

verus! {

/// The gender a button stands for: male for the button of that name, female
/// for any other.
pub open spec fn chosen_gender(data: Seq<char>) -> Gender {
    if data == "Мужской ♂"@ {
        Gender::Male
    } else {
        Gender::Female
    }
}

/// The category a button stands for: `vulgar` for the button of that name,
/// regular for any other.
pub open spec fn chosen_chat_type(data: Seq<char>) -> ChatType {
    if data == "vulgar"@ {
        ChatType::Vulgar
    } else {
        ChatType::Regular
    }
}

/// The gender a button stands for.
pub fn gender_choice(data: &str) -> (r: Gender)
    ensures
        r == chosen_gender(data@),
{
    if str_eq(data, "Мужской ♂") {
        Gender::Male
    } else {
        Gender::Female
    }
}

/// The category a button stands for.
pub fn chat_type_choice(data: &str) -> (r: ChatType)
    ensures
        r == chosen_chat_type(data@),
{
    if str_eq(data, "vulgar") {
        ChatType::Vulgar
    } else {
        ChatType::Regular
    }
}

/// A rating: whom it is about and whether it is a like.
#[derive(Debug, Clone, Copy, PartialEq, Eq, Structural)]
pub struct Reaction {
    pub target: i64,
    pub positive: bool,
}

/// The rating a button stands for. Its data is a word, `_`, and the id of
/// the user rated; it is a dislike exactly when `dislike` stands in it.
/// Data without `_`, or with something after it that is no id, stands for no
/// rating.
pub open spec fn decoded(data: Seq<char>) -> Option<Reaction> {
    match second_field(data) {
        None => None,
        Some(field) => reaction_of(parsed_i64(field), occurs_in(data, "dislike"@)),
    }
}

/// The rating of `target`, if there is one, as a dislike or a like.
pub open spec fn reaction_of(target: Option<i64>, dislike: bool) -> Option<Reaction> {
    match target {
        Some(t) => Some(Reaction { target: t, positive: !dislike }),
        None => None,
    }
}

/// The rating of `target`, if there is one, as a dislike or a like.
pub fn make_reaction(target: Option<i64>, dislike: bool) -> (r: Option<Reaction>)
    ensures
        r == reaction_of(target, dislike),
{
    match target {
        Some(t) => Some(Reaction { target: t, positive: !dislike }),
        None => None,
    }
}

/// The rating a button stands for.
pub fn decode_reaction(data: &str) -> (r: Option<Reaction>)
    ensures
        r == decoded(data@),
{
    match find_second_field(data) {
        None => None,
        Some(field) => make_reaction(parse_i64(field), contains(data, "dislike")),
    }
}

/// Registration, the own gender. Without data nothing happens. Otherwise
/// the user is registered with the age and nickname given before and the
/// gender chosen; on success they are told so and are idle, a refusal is
/// told and they stand where the store has them.
pub fn receive_gender(
    db: &mut Database,
    user_id: i64,
    age: u8,
    nickname: String,
    data: Option<&str>,
) -> (r: Step)
    requires
        old(db).wf(),
    ensures
        final(db).wf(),
        old(db)@.consistent() ==> final(db)@.consistent(),
        data matches Some(d) ==> old(db)@.register_facts(user_id, age, nickname@, chosen_gender(d@)),
        match data {
            None => final(db)@ == old(db)@ && r.state is None && r.out@ == Seq::<
                Notification,
            >::empty(),
            Some(d) => {
                let (after, result) = old(db)@.register(
                    user_id,
                    age,
                    nickname@,
                    chosen_gender(d@),
                );
                &&& final(db)@ == after
                &&& match result {
                    Ok(_) => r.state == Some(State::Idle) && r.out@ == seq![
                        tell(user_id, Notice::Registered),
                    ],
                    Err(e) => r.state == Some(old(db)@.resting_state(user_id)) && r.out@ == seq![
                        tell(user_id, refusal(e, Notice::InvalidInput)),
                    ],
                }
            },
        },
{
    match data {
        None => Step { state: None, out: Vec::new() },
        Some(d) => {
            let gender = gender_choice(d);
            proof {
                db@.lemma_register(user_id, age, nickname@, gender);
            }
            match db.register(user_id, age, nickname, gender) {
                Ok(_) => reply(Some(State::Idle), user_id, Notice::Registered),
                Err(e) => reply(
                    Some(db.resting_state(user_id)),
                    user_id,
                    refusal_notice(e, Notice::InvalidInput),
                ),
            }
        },
    }
}

/// The new gender. Without data nothing happens; otherwise the gender
/// chosen is recorded if the user may edit.
pub fn receive_set_gender(db: &mut Database, user_id: i64, data: Option<&str>) -> (r: Step)
    requires
        old(db).wf(),
    ensures
        final(db).wf(),
        old(db)@.consistent() ==> final(db)@.consistent(),
        match data {
            None => final(db)@ == old(db)@ && r.state is None && r.out@ == Seq::<
                Notification,
            >::empty(),
            Some(d) => {
                let (after, result) = old(db)@.edit_gender(user_id, chosen_gender(d@));
                &&& final(db)@ == after
                &&& r.state == edit_outcome(old(db)@, user_id, result).0
                &&& r.out@ == seq![tell(user_id, edit_outcome(old(db)@, user_id, result).1)]
            },
        },
{
    match data {
        None => Step { state: None, out: Vec::new() },
        Some(d) => {
            let result = db.edit_gender(user_id, gender_choice(d));
            end_edit(db, user_id, result)
        },
    }
}

/// What a rating leads to: who is banned by it is told so, a refusal is
/// told to the rater, and otherwise nothing is said.
pub open spec fn rated(user: i64, target: i64, result: Result<bool, Error>) -> Seq<Notification> {
    match result {
        Ok(banned) => if banned {
            seq![tell(target, Notice::BannedByReputation)]
        } else {
            seq![]
        },
        Err(e) => seq![tell(user, refusal(e, Notice::Failure))],
    }
}

/// A rating, given what the button's data stands for. The rater stands
/// where the store has them afterwards.
pub fn reaction_given(db: &mut Database, user_id: i64, reaction: Option<Reaction>) -> (r: Step)
    requires
        old(db).wf(),
    ensures
        final(db).wf(),
        old(db)@.consistent() ==> final(db)@.consistent(),
        reaction matches Some(x) ==> old(db)@.rate_facts(user_id, x.target, x.positive),
        r.state == Some(final(db)@.resting_state(user_id)),
        match reaction {
            None => final(db)@ == old(db)@ && r.out@ == Seq::<Notification>::empty(),
            Some(x) => final(db)@ == old(db)@.rate(user_id, x.target, x.positive).0 && r.out@
                == rated(user_id, x.target, old(db)@.rate(user_id, x.target, x.positive).1),
        },
{
    match reaction {
        None => Step { state: Some(db.resting_state(user_id)), out: Vec::new() },
        Some(x) => {
            let result = db.rate(user_id, x.target, x.positive);
            let mut out: Vec<Notification> = Vec::new();
            match result {
                Ok(banned) => if banned {
                    out.push(notify(x.target, Notice::BannedByReputation));
                },
                Err(e) => {
                    out.push(notify(user_id, refusal_notice(e, Notice::Failure)));
                },
            }
            Step { state: Some(db.resting_state(user_id)), out }
        },
    }
}

/// The rating a press of a button carries, if it carries data at all.
pub open spec fn pressed_reaction(data: Option<&str>) -> Option<Reaction> {
    match data {
        Some(d) => decoded(d@),
        None => None,
    }
}

/// A press of one of the two rating buttons.
pub fn reactions_callback(db: &mut Database, user_id: i64, data: Option<&str>) -> (r: Step)
    requires
        old(db).wf(),
    ensures
        final(db).wf(),
        old(db)@.consistent() ==> final(db)@.consistent(),
        pressed_reaction(data) matches Some(x) ==> old(db)@.rate_facts(
            user_id,
            x.target,
            x.positive,
        ),
        r.state == Some(final(db)@.resting_state(user_id)),
        match pressed_reaction(data) {
            None => final(db)@ == old(db)@ && r.out@ == Seq::<Notification>::empty(),
            Some(x) => final(db)@ == old(db)@.rate(user_id, x.target, x.positive).0 && r.out@
                == rated(user_id, x.target, old(db)@.rate(user_id, x.target, x.positive).1),
        },
{
    let reaction = match data {
        Some(d) => decode_reaction(d),
        None => None,
    };
    reaction_given(db, user_id, reaction)
}

/// The choice of the category, which starts the search for a partner of
/// `gender`. Without data nothing happens. On success the user talks to the
/// partner found, and both are told, or waits and is told so; a refusal is
/// told and the user stands where the store has them.
pub fn chat_type_callback(db: &mut Database, user_id: i64, data: Option<&str>, gender: Gender) -> (r:
    Step)
    requires
        old(db).wf(),
    ensures
        final(db).wf(),
        old(db)@.consistent() ==> final(db)@.consistent(),
        data matches Some(d) ==> old(db)@.begin_search_facts(
            user_id,
            gender,
            chosen_chat_type(d@),
        ),
        match data {
            None => final(db)@ == old(db)@ && r.state is None && r.out@ == Seq::<
                Notification,
            >::empty(),
            Some(d) => {
                let (after, result) = old(db)@.begin_search(
                    user_id,
                    gender,
                    chosen_chat_type(d@),
                );
                &&& final(db)@ == after
                &&& match result {
                    Ok(matched) => r.state == Some(searching_state(matched)) && r.out@ == meeting(
                        user_id,
                        matched,
                    ),
                    Err(e) => r.state == Some(old(db)@.resting_state(user_id)) && r.out@ == seq![
                        tell(user_id, refusal(e, busy(old(db)@, user_id))),
                    ],
                }
            },
        },
{
    match data {
        None => Step { state: None, out: Vec::new() },
        Some(d) => {
            let category = chat_type_choice(d);
            match db.begin_search(user_id, gender, category) {
                Ok(matched) => {
                    let mut out: Vec<Notification> = Vec::new();
                    push_meeting_notices(&mut out, user_id, matched);
                    Step { state: Some(state_after_search(matched)), out }
                },
                Err(e) => reply(
                    Some(db.resting_state(user_id)),
                    user_id,
                    refusal_notice(e, busy_notice(db, user_id)),
                ),
            }
        },
    }
}

/// A press of a button outside the steps that await one. Data in which
/// `like` stands is a rating; `cancel` cancels the search; anything else is
/// the choice of the partner's gender and leads on to the choice of the
/// category. Without data nothing happens.
pub fn search_callback(db: &mut Database, user_id: i64, data: Option<&str>) -> (r: Step)
    requires
        old(db).wf(),
    ensures
        final(db).wf(),
        old(db)@.consistent() ==> final(db)@.consistent(),
        match data {
            None => final(db)@ == old(db)@ && r.state is None && r.out@ == Seq::<
                Notification,
            >::empty(),
            Some(d) => if occurs_in(d@, "like"@) {
                &&& r.state == Some(final(db)@.resting_state(user_id))
                &&& match decoded(d@) {
                    None => final(db)@ == old(db)@ && r.out@ == Seq::<Notification>::empty(),
                    Some(x) => final(db)@ == old(db)@.rate(user_id, x.target, x.positive).0
                        && r.out@ == rated(
                        user_id,
                        x.target,
                        old(db)@.rate(user_id, x.target, x.positive).1,
                    ),
                }
            } else if d@ == "cancel"@ {
                &&& final(db)@ == old(db)@.cancel_search(user_id).0
                &&& r.state == Some(final(db)@.resting_state(user_id))
                &&& match old(db)@.cancel_search(user_id).1 {
                    Ok(_) => r.out@ == seq![tell(user_id, Notice::SearchCancelled)],
                    Err(e) => r.out@ == seq![tell(user_id, refusal(e, Notice::Failure))],
                }
            } else {
                &&& final(db)@ == old(db)@
                &&& r.state == Some(State::SearchChooseChatType { gender: chosen_gender(d@) })
                &&& r.out@ == seq![tell(user_id, Notice::AskChatType)]
            },
        },
{
    match data {
        None => Step { state: None, out: Vec::new() },
        Some(d) => if contains(d, "like") {
            reactions_callback(db, user_id, data)
        } else if str_eq(d, "cancel") {
            cancel(db, user_id)
        } else {
            reply(
                Some(State::SearchChooseChatType { gender: gender_choice(d) }),
                user_id,
                Notice::AskChatType,
            )
        },
    }
}

} // verus!
