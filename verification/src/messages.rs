use crate::database::Database;
use crate::error::Error;
use crate::models::user::MIN_AGE;
use crate::moderation::{is_suspicious, suspicious};
use crate::notice::{
    forward, notify, pass_on, refusal, refusal_notice, reply, reply_ids, replying, tell, Content,
    MediaKind, Notice, Notification, Payload, Recipient, Step,
};
use crate::state::State;
use crate::store::DatabaseView;
use crate::text::{lowercase, parse_u8, parsed_u8};
use crate::user_state::UserState;
use vstd::prelude::*;

verus! {

/// A message as it comes in: its text and its caption, if it has them, for
/// each kind of media the reference to the file, if the message carries that
/// kind, and the id of the message it answers, if it answers one.
#[derive(Debug, Clone, PartialEq, Eq)]
pub struct Incoming {
    pub text: Option<String>,
    pub caption: Option<String>,
    pub voice: Option<String>,
    pub sticker: Option<String>,
    pub photo: Option<String>,
    pub video: Option<String>,
    pub animation: Option<String>,
    pub video_note: Option<String>,
    pub reply_to: Option<i32>,
}

/// What is passed on of a message: the first of voice, sticker, photo,
/// video, animation and video note that it carries, with the caption of the
/// message; else its text; nothing where it has none of these.
pub open spec fn classify(m: Incoming) -> Option<Payload> {
    if let Some(file) = m.voice {
        Some(Payload::MediaRef { kind: MediaKind::Voice, file, caption: m.caption })
    } else if let Some(file) = m.sticker {
        Some(Payload::MediaRef { kind: MediaKind::Sticker, file, caption: m.caption })
    } else if let Some(file) = m.photo {
        Some(Payload::MediaRef { kind: MediaKind::Photo, file, caption: m.caption })
    } else if let Some(file) = m.video {
        Some(Payload::MediaRef { kind: MediaKind::Video, file, caption: m.caption })
    } else if let Some(file) = m.animation {
        Some(Payload::MediaRef { kind: MediaKind::Animation, file, caption: m.caption })
    } else if let Some(file) = m.video_note {
        Some(Payload::MediaRef { kind: MediaKind::VideoNote, file, caption: m.caption })
    } else if let Some(text) = m.text {
        Some(Payload::Text(text))
    } else {
        None
    }
}

impl Incoming {
    /// Whether the message has a text in which a word of the denylist
    /// stands.
    pub open spec fn flagged(self) -> bool {
        self.text matches Some(t) && suspicious(lowercase(t@))
    }

    /// A message that is nothing but a text.
    pub fn of_text(text: String) -> (r: Incoming)
        ensures
            r.text == Some(text),
            r.reply_to is None,
            classify(r) == Some(Payload::Text(text)),
    {
        Incoming {
            text: Some(text),
            caption: None,
            voice: None,
            sticker: None,
            photo: None,
            video: None,
            animation: None,
            video_note: None,
            reply_to: None,
        }
    }

    /// What is passed on of this message.
    pub fn into_payload(self) -> (r: Option<Payload>)
        ensures
            r == classify(self),
    {
        if let Some(file) = self.voice {
            Some(Payload::MediaRef { kind: MediaKind::Voice, file, caption: self.caption })
        } else if let Some(file) = self.sticker {
            Some(Payload::MediaRef { kind: MediaKind::Sticker, file, caption: self.caption })
        } else if let Some(file) = self.photo {
            Some(Payload::MediaRef { kind: MediaKind::Photo, file, caption: self.caption })
        } else if let Some(file) = self.video {
            Some(Payload::MediaRef { kind: MediaKind::Video, file, caption: self.caption })
        } else if let Some(file) = self.animation {
            Some(Payload::MediaRef { kind: MediaKind::Animation, file, caption: self.caption })
        } else if let Some(file) = self.video_note {
            Some(Payload::MediaRef { kind: MediaKind::VideoNote, file, caption: self.caption })
        } else if let Some(text) = self.text {
            Some(Payload::Text(text))
        } else {
            None
        }
    }
}

/// What is delivered for a message of `user` to `partner`. What is passed
/// on of it goes to the partner, once and as it came, a text as an answer
/// where the message was one. A text that was flagged goes to the moderator
/// as well, before that; the flag changes nothing else. A message of which
/// nothing can be passed on is answered to the user.
pub open spec fn relayed_with(user: i64, partner: i64, m: Incoming, flagged: bool) -> Seq<
    Notification,
> {
    match classify(m) {
        None => seq![tell(user, Notice::UnsupportedFormat)],
        Some(Payload::Text(text)) => if flagged {
            seq![
                Notification {
                    recipient: Recipient::Moderator,
                    content: Content::Flagged { sender: user, text },
                    reply: None,
                },
                pass_on(partner, Payload::Text(text), replying(m.reply_to)),
            ]
        } else {
            seq![pass_on(partner, Payload::Text(text), replying(m.reply_to))]
        },
        Some(payload) => seq![pass_on(partner, payload, None)],
    }
}

/// What is delivered for a message of `user` to `partner`, given whether a
/// word of the denylist stands in its text.
pub fn relay_out(user: i64, partner: i64, message: Incoming, flagged: bool) -> (r: Vec<
    Notification,
>)
    ensures
        r@ == relayed_with(user, partner, message, flagged),
{
    let mut out: Vec<Notification> = Vec::new();
    let reply = reply_ids(message.reply_to);
    match message.into_payload() {
        None => {
            out.push(notify(user, Notice::UnsupportedFormat));
        },
        Some(Payload::Text(text)) => {
            if flagged {
                out.push(
                    Notification {
                        recipient: Recipient::Moderator,
                        content: Content::Flagged { sender: user, text: text.clone() },
                        reply: None,
                    },
                );
            }
            out.push(forward(partner, Payload::Text(text), reply));
        },
        Some(payload) => {
            out.push(forward(partner, payload, None));
        },
    }
    out
}

/// What a message does, whatever it holds: nothing to the store. It is
/// passed on to the partner of a user who may act and talks, a flagged text
/// to the moderator as well, and the user is then talking to that partner;
/// anybody else is told why it was not passed on and stands where the store
/// has them. No text is read as a command.
pub open spec fn relay_step(db: DatabaseView, user: i64, m: Incoming) -> (
    Option<State>,
    Seq<Notification>,
) {
    match db.relay(user) {
        Ok(partner) => (
            Some(State::Dialog { interlocutor: partner }),
            relayed_with(user, partner, m, m.flagged()),
        ),
        Err(e) => (
            Some(db.resting_state(user)),
            seq![tell(user, refusal(e, Notice::NotInDialog))],
        ),
    }
}

/// A message sent while waiting or talking: see `relay_step`.
pub fn receive_message(db: &Database, user_id: i64, message: Incoming) -> (r: Step)
    requires
        db.wf(),
    ensures
        (r.state, r.out@) == relay_step(db@, user_id, message),
{
    match db.relay(user_id) {
        Ok(partner) => {
            let flagged = match &message.text {
                Some(t) => is_suspicious(t.as_str()),
                None => false,
            };
            Step {
                state: Some(State::Dialog { interlocutor: partner }),
                out: relay_out(user_id, partner, message, flagged),
            }
        },
        Err(e) => reply(
            Some(db.resting_state(user_id)),
            user_id,
            refusal_notice(e, Notice::NotInDialog),
        ),
    }
}

/// Registration, the age: an age of at least the minimum leads on to the
/// nickname; a lower one is refused and anything that is no age is asked
/// for again, and the user stays where they are.
pub open spec fn age_step(age: Option<u8>) -> (Option<State>, Notice) {
    match age {
        None => (None, Notice::InvalidInput),
        Some(a) => if a < MIN_AGE {
            (None, Notice::TooYoung)
        } else {
            (Some(State::ReceiveNickname { age: a }), Notice::AskNickname)
        },
    }
}

/// Registration, the age, given what the user's text was read as.
pub fn age_given(user_id: i64, age: Option<u8>) -> (r: Step)
    ensures
        r.state == age_step(age).0,
        r.out@ == seq![tell(user_id, age_step(age).1)],
{
    match age {
        None => reply(None, user_id, Notice::InvalidInput),
        Some(a) => if a < MIN_AGE {
            reply(None, user_id, Notice::TooYoung)
        } else {
            reply(Some(State::ReceiveNickname { age: a }), user_id, Notice::AskNickname)
        },
    }
}

/// The age a message states: what its text is read as, if it has a text
/// and that is read as a number between 0 and 255.
pub open spec fn stated_age(text: Option<&str>) -> Option<u8> {
    match text {
        Some(t) => parsed_u8(t@),
        None => None,
    }
}

/// The age a message states.
pub fn read_age(text: Option<&str>) -> (r: Option<u8>)
    ensures
        r == stated_age(text),
{
    match text {
        Some(t) => parse_u8(t),
        None => None,
    }
}

/// Registration, the age.
pub fn receive_age(user_id: i64, text: Option<&str>) -> (r: Step)
    ensures
        r.state == age_step(stated_age(text)).0,
        r.out@ == seq![tell(user_id, age_step(stated_age(text)).1)],
{
    age_given(user_id, read_age(text))
}

/// Registration, the nickname: any text is taken and leads on to the choice
/// of the own gender; a message without text is asked for again.
pub fn receive_nickname(user_id: i64, text: Option<String>, age: u8) -> (r: Step)
    ensures
        match text {
            Some(nickname) => r.state == Some(State::ReceiveGender { age, nickname }) && r.out@
                == seq![tell(user_id, Notice::AskOwnGender)],
            None => r.state is None && r.out@ == seq![tell(user_id, Notice::InvalidInput)],
        },
{
    match text {
        Some(nickname) => reply(
            Some(State::ReceiveGender { age, nickname }),
            user_id,
            Notice::AskOwnGender,
        ),
        None => reply(None, user_id, Notice::InvalidInput),
    }
}

/// A search was asked for during a dialog.
pub fn dialog_search(user_id: i64) -> (r: Step)
    ensures
        r.state is None,
        r.out@ == seq![tell(user_id, Notice::AlreadyInDialog)],
{
    reply(None, user_id, Notice::AlreadyInDialog)
}

/// What a user who may not edit their profile because they wait or talk is
/// told.
pub open spec fn busy(db: DatabaseView, user_id: i64) -> Notice {
    if db.has_user(user_id) && db.user(user_id).state == UserState::Dialog {
        Notice::StopDialogFirst
    } else {
        Notice::BusySearching
    }
}

/// What a user who may not edit their profile because they wait or talk is
/// told.
pub fn busy_notice(db: &Database, user_id: i64) -> (r: Notice)
    requires
        db.wf(),
    ensures
        r == busy(db@, user_id),
{
    match db.get_user(user_id) {
        Some(u) => if u.state == UserState::Dialog {
            Notice::StopDialogFirst
        } else {
            Notice::BusySearching
        },
        None => Notice::BusySearching,
    }
}

/// The start of an edit: a user who may edit is asked with `ask` and goes
/// to `editing`; anybody else is told why not and stands where the store
/// has them.
pub open spec fn edit_prompt(db: DatabaseView, user_id: i64, editing: State, ask: Notice) -> (
    Option<State>,
    Notice,
) {
    match db.may_edit(user_id) {
        Ok(_) => (Some(editing), ask),
        Err(e) => (Some(db.resting_state(user_id)), refusal(e, busy(db, user_id))),
    }
}

/// The start of an edit: see `edit_prompt`.
pub fn begin_edit(db: &Database, user_id: i64, editing: State, ask: Notice) -> (r: Step)
    requires
        db.wf(),
    ensures
        r.state == edit_prompt(db@, user_id, editing, ask).0,
        r.out@ == seq![tell(user_id, edit_prompt(db@, user_id, editing, ask).1)],
{
    match db.may_edit(user_id) {
        Ok(_) => reply(Some(editing), user_id, ask),
        Err(e) => reply(
            Some(db.resting_state(user_id)),
            user_id,
            refusal_notice(e, busy_notice(db, user_id)),
        ),
    }
}

/// A user wants a new nickname.
pub fn set_name(db: &Database, user_id: i64) -> (r: Step)
    requires
        db.wf(),
    ensures
        r.state == edit_prompt(db@, user_id, State::SetNickname, Notice::AskNewNickname).0,
        r.out@ == seq![
            tell(
                user_id,
                edit_prompt(db@, user_id, State::SetNickname, Notice::AskNewNickname).1,
            ),
        ],
{
    begin_edit(db, user_id, State::SetNickname, Notice::AskNewNickname)
}

/// A user wants a new age.
pub fn set_age(db: &Database, user_id: i64) -> (r: Step)
    requires
        db.wf(),
    ensures
        r.state == edit_prompt(db@, user_id, State::SetAge, Notice::AskNewAge).0,
        r.out@ == seq![
            tell(user_id, edit_prompt(db@, user_id, State::SetAge, Notice::AskNewAge).1),
        ],
{
    begin_edit(db, user_id, State::SetAge, Notice::AskNewAge)
}

/// A user wants a new gender.
pub fn set_gender(db: &Database, user_id: i64) -> (r: Step)
    requires
        db.wf(),
    ensures
        r.state == edit_prompt(db@, user_id, State::SetGender, Notice::AskNewGender).0,
        r.out@ == seq![
            tell(user_id, edit_prompt(db@, user_id, State::SetGender, Notice::AskNewGender).1),
        ],
{
    begin_edit(db, user_id, State::SetGender, Notice::AskNewGender)
}

/// The end of an edit: on success the user is told so and is idle; a
/// refusal is told and the user stands where the store has them.
pub open spec fn edit_outcome(db: DatabaseView, user_id: i64, result: Result<(), Error>) -> (
    Option<State>,
    Notice,
) {
    match result {
        Ok(_) => (Some(State::Idle), Notice::Done),
        Err(e) => (Some(db.resting_state(user_id)), refusal(e, busy(db, user_id))),
    }
}

/// The end of an edit: see `edit_outcome`.
pub fn end_edit(db: &Database, user_id: i64, result: Result<(), Error>) -> (r: Step)
    requires
        db.wf(),
    ensures
        r.state == edit_outcome(db@, user_id, result).0,
        r.out@ == seq![tell(user_id, edit_outcome(db@, user_id, result).1)],
{
    match result {
        Ok(_) => reply(Some(State::Idle), user_id, Notice::Done),
        Err(e) => reply(
            Some(db.resting_state(user_id)),
            user_id,
            refusal_notice(e, busy_notice(db, user_id)),
        ),
    }
}

/// The new age, given what the user's text was read as. Anything that is no
/// age is asked for again; an age under the minimum is refused and ends the
/// edit; any other age is recorded if the user may edit.
pub fn new_age_given(db: &mut Database, user_id: i64, age: Option<u8>) -> (r: Step)
    requires
        old(db).wf(),
    ensures
        final(db).wf(),
        old(db)@.consistent() ==> final(db)@.consistent(),
        match age {
            None => final(db)@ == old(db)@ && r.state is None && r.out@ == seq![
                tell(user_id, Notice::InvalidInput),
            ],
            Some(a) => if a < MIN_AGE {
                final(db)@ == old(db)@ && r.state == Some(old(db)@.resting_state(user_id))
                    && r.out@ == seq![tell(user_id, Notice::TooYoung)]
            } else {
                final(db)@ == old(db)@.edit_age(user_id, a).0 && r.state == edit_outcome(
                    old(db)@,
                    user_id,
                    old(db)@.edit_age(user_id, a).1,
                ).0 && r.out@ == seq![
                    tell(
                        user_id,
                        edit_outcome(old(db)@, user_id, old(db)@.edit_age(user_id, a).1).1,
                    ),
                ]
            },
        },
{
    match age {
        None => reply(None, user_id, Notice::InvalidInput),
        Some(a) => if a < MIN_AGE {
            reply(Some(db.resting_state(user_id)), user_id, Notice::TooYoung)
        } else {
            let result = db.edit_age(user_id, a);
            end_edit(db, user_id, result)
        },
    }
}

/// The new age.
pub fn receive_set_age(db: &mut Database, user_id: i64, text: Option<&str>) -> (r: Step)
    requires
        old(db).wf(),
    ensures
        final(db).wf(),
        old(db)@.consistent() ==> final(db)@.consistent(),
        match stated_age(text) {
            None => final(db)@ == old(db)@ && r.state is None && r.out@ == seq![
                tell(user_id, Notice::InvalidInput),
            ],
            Some(a) => if a < MIN_AGE {
                final(db)@ == old(db)@ && r.state == Some(old(db)@.resting_state(user_id))
                    && r.out@ == seq![tell(user_id, Notice::TooYoung)]
            } else {
                final(db)@ == old(db)@.edit_age(user_id, a).0 && r.state == edit_outcome(
                    old(db)@,
                    user_id,
                    old(db)@.edit_age(user_id, a).1,
                ).0 && r.out@ == seq![
                    tell(
                        user_id,
                        edit_outcome(old(db)@, user_id, old(db)@.edit_age(user_id, a).1).1,
                    ),
                ]
            },
        },
{
    let age = read_age(text);
    new_age_given(db, user_id, age)
}

/// The new nickname: any text is recorded if the user may edit; a message
/// without text is asked for again.
pub fn receive_set_nickname(db: &mut Database, user_id: i64, text: Option<&str>) -> (r: Step)
    requires
        old(db).wf(),
    ensures
        final(db).wf(),
        old(db)@.consistent() ==> final(db)@.consistent(),
        match text {
            None => final(db)@ == old(db)@ && r.state is None && r.out@ == seq![
                tell(user_id, Notice::InvalidInput),
            ],
            Some(t) => final(db)@ == old(db)@.edit_nickname(user_id, t@).0 && r.state
                == edit_outcome(old(db)@, user_id, old(db)@.edit_nickname(user_id, t@).1).0
                && r.out@ == seq![
                tell(
                    user_id,
                    edit_outcome(old(db)@, user_id, old(db)@.edit_nickname(user_id, t@).1).1,
                ),
            ],
        },
{
    match text {
        None => reply(None, user_id, Notice::InvalidInput),
        Some(t) => {
            let result = db.edit_nickname(user_id, t);
            end_edit(db, user_id, result)
        },
    }
}

} // verus!
