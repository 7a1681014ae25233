use anon_chat::admin::{admin, admin_message, ban, delete_user, read_target, unban, Stats};
use anon_chat::callbacks::{
    chat_type_callback, reaction_given, reactions_callback, receive_gender, receive_set_gender,
    search_callback, Reaction,
};
use anon_chat::command::Command;
use anon_chat::commands::{cancel, idle, next, search, start, stop};
use anon_chat::database::Database;
use anon_chat::dispatch::{route_by_state, route_callback, route_message, Route};
use anon_chat::error::Error;
use anon_chat::messages::{
    age_given, dialog_search, new_age_given, read_age, receive_age, receive_message,
    receive_nickname, receive_set_age, receive_set_nickname, relay_out, set_age, set_gender,
    set_name, Incoming,
};
use anon_chat::models::chat_type::ChatType;
use anon_chat::models::gender::Gender;
use anon_chat::notice::{
    forward, notify, refusal_notice, reply, reply_ids, Content, MediaKind, Notice, Notification,
    Payload, Recipient, ReplyTo, Step,
};
use anon_chat::state::State;
use anon_chat::user_state::UserState;

fn text(t: &str) -> Incoming {
    Incoming::of_text(t.to_string())
}

fn nothing() -> Incoming {
    Incoming {
        text: None, caption: None, voice: None, sticker: None, photo: None, video: None,
        animation: None, video_note: None, reply_to: None,
    }
}

fn told(user: i64, notice: Notice) -> Notification {
    Notification { recipient: Recipient::User(user), content: Content::Notice(notice), reply: None }
}

fn forwarded(user: i64, payload: Payload) -> Notification {
    Notification { recipient: Recipient::User(user), content: Content::Forward(payload), reply: None }
}

fn one(state: Option<State>, user: i64, notice: Notice) -> Step {
    Step { state, out: vec![told(user, notice)] }
}

fn pair() -> Database {
    let mut db = Database::new();
    assert_eq!(db.register(1, 20, "a".to_string(), Gender::Male), Ok(()));
    assert_eq!(db.register(2, 21, "b".to_string(), Gender::Female), Ok(()));
    assert_eq!(db.register(3, 22, "c".to_string(), Gender::Female), Ok(()));
    db
}

fn talking() -> Database {
    let mut db = pair();
    assert_eq!(db.begin_search(1, Gender::Female, ChatType::Regular), Ok(None));
    assert_eq!(db.begin_search(2, Gender::Male, ChatType::Regular), Ok(Some(1)));
    db
}

#[test]
fn notices_are_built() {
    assert_eq!(notify(5, Notice::Done), told(5, Notice::Done));
    assert_eq!(reply(Some(State::Idle), 5, Notice::Done), one(Some(State::Idle), 5, Notice::Done));
    assert_eq!(refusal_notice(Error::NotRegistered, Notice::Done), Notice::RegisterFirst);
    assert_eq!(refusal_notice(Error::Banned, Notice::Done), Notice::Banned);
    assert_eq!(refusal_notice(Error::StorageFailure, Notice::Done), Notice::Failure);
    assert_eq!(refusal_notice(Error::InvalidStateTransition, Notice::Done), Notice::Done);
}

#[test]
fn start_greets() {
    let mut db = pair();
    assert_eq!(
        start(&db, 9),
        Step { state: Some(State::ReceiveAge), out: vec![told(9, Notice::Welcome), told(9, Notice::AskAge)] }
    );
    assert_eq!(start(&db, 1), one(Some(State::Idle), 1, Notice::Welcome));
    assert_eq!(db.ban_user(1), Ok(()));
    assert_eq!(start(&db, 1), one(Some(State::Idle), 1, Notice::Banned));
    let db = talking();
    assert_eq!(start(&db, 2), one(Some(State::Dialog { interlocutor: 1 }), 2, Notice::Welcome));
}

#[test]
fn registration_steps() {
    assert_eq!(receive_age(9, Some("25")), one(Some(State::ReceiveNickname { age: 25 }), 9, Notice::AskNickname));
    assert_eq!(receive_age(9, Some("12")), one(Some(State::ReceiveNickname { age: 12 }), 9, Notice::AskNickname));
    assert_eq!(receive_age(9, Some("11")), one(None, 9, Notice::TooYoung));
    assert_eq!(receive_age(9, Some("0")), one(None, 9, Notice::TooYoung));
    assert_eq!(receive_age(9, Some("256")), one(None, 9, Notice::InvalidInput));
    assert_eq!(receive_age(9, Some("-3")), one(None, 9, Notice::InvalidInput));
    assert_eq!(receive_age(9, Some("abc")), one(None, 9, Notice::InvalidInput));
    assert_eq!(receive_age(9, None), one(None, 9, Notice::InvalidInput));
    assert_eq!(read_age(Some("200")), Some(200));
    assert_eq!(read_age(Some("")), None);
    assert_eq!(age_given(9, Some(255)), one(Some(State::ReceiveNickname { age: 255 }), 9, Notice::AskNickname));
    assert_eq!(age_given(9, None), one(None, 9, Notice::InvalidInput));
    assert_eq!(
        receive_nickname(9, Some("neo".to_string()), 25),
        one(Some(State::ReceiveGender { age: 25, nickname: "neo".to_string() }), 9, Notice::AskOwnGender)
    );
    assert_eq!(receive_nickname(9, None, 25), one(None, 9, Notice::InvalidInput));
    let mut db = Database::new();
    assert_eq!(receive_gender(&mut db, 9, 25, "neo".to_string(), None), Step { state: None, out: vec![] });
    assert_eq!(
        receive_gender(&mut db, 9, 25, "neo".to_string(), Some("Мужской ♂")),
        one(Some(State::Idle), 9, Notice::Registered)
    );
    let u = db.get_user(9).unwrap();
    assert_eq!((u.age, u.nickname.as_str(), u.gender, u.state), (25, "neo", Gender::Male, UserState::Default));
    assert_eq!(
        receive_gender(&mut db, 9, 30, "trinity".to_string(), Some("x")),
        one(Some(State::Idle), 9, Notice::InvalidInput)
    );
    assert_eq!(db.get_user(9).unwrap().nickname, "neo");
}

#[test]
fn search_is_prompted_or_refused() {
    let mut db = pair();
    assert_eq!(search(&db, 1), one(Some(State::SearchChooseGender), 1, Notice::AskSearchGender));
    assert_eq!(search(&db, 9), one(Some(State::Start), 9, Notice::RegisterFirst));
    assert_eq!(idle(&db, 1, text("research")), one(Some(State::Idle), 1, Notice::NotInDialog));
    assert_eq!(idle(&db, 1, text("hello")), one(Some(State::Idle), 1, Notice::NotInDialog));
    assert_eq!(idle(&db, 1, nothing()), one(Some(State::Idle), 1, Notice::NotInDialog));
    assert_eq!(db.begin_search(1, Gender::Female, ChatType::Regular), Ok(None));
    assert_eq!(search(&db, 1), one(None, 1, Notice::BusySearching));
    assert_eq!(db.begin_search(2, Gender::Male, ChatType::Regular), Ok(Some(1)));
    assert_eq!(search(&db, 1), one(None, 1, Notice::StopDialogFirst));
    assert_eq!(db.ban_user(3), Ok(()));
    assert_eq!(search(&db, 3), one(Some(State::Idle), 3, Notice::Banned));
    assert_eq!(dialog_search(1), one(None, 1, Notice::AlreadyInDialog));
}

#[test]
fn search_buttons() {
    let mut db = pair();
    assert_eq!(search_callback(&mut db, 1, None), Step { state: None, out: vec![] });
    assert_eq!(
        search_callback(&mut db, 1, Some("Женский ♀")),
        one(Some(State::SearchChooseChatType { gender: Gender::Female }), 1, Notice::AskChatType)
    );
    assert_eq!(
        search_callback(&mut db, 1, Some("Мужской ♂")),
        one(Some(State::SearchChooseChatType { gender: Gender::Male }), 1, Notice::AskChatType)
    );
    assert_eq!(chat_type_callback(&mut db, 1, None, Gender::Female), Step { state: None, out: vec![] });
    assert_eq!(chat_type_callback(&mut db, 1, Some("regular"), Gender::Female), one(Some(State::Search), 1, Notice::Searching));
    assert_eq!(chat_type_callback(&mut db, 1, Some("regular"), Gender::Female), one(Some(State::Search), 1, Notice::BusySearching));
    assert_eq!(chat_type_callback(&mut db, 3, Some("vulgar"), Gender::Male), one(Some(State::Search), 3, Notice::Searching));
    assert_eq!(
        chat_type_callback(&mut db, 2, Some("regular"), Gender::Male),
        Step {
            state: Some(State::Dialog { interlocutor: 1 }),
            out: vec![told(2, Notice::PartnerFound { partner: 1 }), told(1, Notice::PartnerFound { partner: 2 })],
        }
    );
    assert_eq!(
        chat_type_callback(&mut db, 2, Some("regular"), Gender::Male),
        one(Some(State::Dialog { interlocutor: 1 }), 2, Notice::StopDialogFirst)
    );
    assert_eq!(chat_type_callback(&mut db, 9, Some("regular"), Gender::Male), one(Some(State::Start), 9, Notice::RegisterFirst));
    assert_eq!(search_callback(&mut db, 3, Some("cancel")), one(Some(State::Idle), 3, Notice::SearchCancelled));
    assert_eq!(db.get_queue_count(), 0);
    assert_eq!(search_callback(&mut db, 3, Some("dislike_1")), Step { state: Some(State::Idle), out: vec![] });
    assert_eq!(db.get_user(1).unwrap().reputation, -1);
}

#[test]
fn cancel_answers_even_when_nothing_waits() {
    let mut db = pair();
    assert_eq!(cancel(&mut db, 1), one(Some(State::Idle), 1, Notice::SearchCancelled));
    assert_eq!(cancel(&mut db, 9), one(Some(State::Start), 9, Notice::SearchCancelled));
    assert_eq!(db.begin_search(1, Gender::Female, ChatType::Regular), Ok(None));
    assert_eq!(cancel(&mut db, 1), one(Some(State::Idle), 1, Notice::SearchCancelled));
    assert_eq!(db.get_user(1).unwrap().state, UserState::Idle);
    let mut db = talking();
    assert_eq!(cancel(&mut db, 1), one(Some(State::Dialog { interlocutor: 2 }), 1, Notice::SearchCancelled));
    assert_eq!(db.get_total_chats(), 1);
    assert_eq!(db.ban_user(1), Ok(()));
    assert_eq!(cancel(&mut db, 1), one(Some(State::Dialog { interlocutor: 2 }), 1, Notice::Banned));
}

#[test]
fn stop_tells_both_once() {
    let mut db = talking();
    assert_eq!(
        stop(&mut db, 1),
        Step {
            state: Some(State::Idle),
            out: vec![told(1, Notice::DialogStopped { partner: 2 }), told(2, Notice::PartnerLeft { partner: 1 })],
        }
    );
    assert_eq!(db.get_user(1).unwrap().state, UserState::Idle);
    assert_eq!(db.get_user(2).unwrap().state, UserState::Idle);
    assert_eq!(stop(&mut db, 1), one(Some(State::Idle), 1, Notice::NotInDialog));
    assert_eq!(stop(&mut db, 2), one(Some(State::Idle), 2, Notice::NotInDialog));
    assert_eq!(stop(&mut db, 9), one(Some(State::Start), 9, Notice::RegisterFirst));
    assert_eq!(db.begin_search(3, Gender::Male, ChatType::Vulgar), Ok(None));
    assert_eq!(stop(&mut db, 3), one(Some(State::Search), 3, Notice::NotInDialog));
}

#[test]
fn next_parts_and_meets() {
    let mut db = talking();
    assert_eq!(db.begin_search(3, Gender::Male, ChatType::Regular), Ok(None));
    assert_eq!(
        next(&mut db, 1),
        Step {
            state: Some(State::Dialog { interlocutor: 3 }),
            out: vec![
                told(1, Notice::DialogStopped { partner: 2 }),
                told(2, Notice::PartnerLeft { partner: 1 }),
                told(1, Notice::PartnerFound { partner: 3 }),
                told(3, Notice::PartnerFound { partner: 1 }),
            ],
        }
    );
    assert_eq!(
        next(&mut db, 3),
        Step {
            state: Some(State::Search),
            out: vec![
                told(3, Notice::DialogStopped { partner: 1 }),
                told(1, Notice::PartnerLeft { partner: 3 }),
                told(3, Notice::Searching),
            ],
        }
    );
    assert_eq!(next(&mut db, 3), one(Some(State::Search), 3, Notice::BusySearching));
    assert_eq!(next(&mut db, 9), one(Some(State::Start), 9, Notice::RegisterFirst));
    let mut fresh = pair();
    assert_eq!(next(&mut fresh, 1), one(Some(State::Idle), 1, Notice::NoPreviousFilters));
    assert_eq!(fresh.ban_user(1), Ok(()));
    assert_eq!(next(&mut fresh, 1), one(Some(State::Idle), 1, Notice::Banned));
}

#[test]
fn messages_are_passed_on() {
    let db = talking();
    assert_eq!(
        receive_message(&db, 1, text("hi")),
        Step { state: Some(State::Dialog { interlocutor: 2 }), out: vec![forwarded(2, Payload::Text("hi".to_string()))] }
    );
    assert_eq!(
        receive_message(&db, 2, text("see HTTP://x.y")),
        Step {
            state: Some(State::Dialog { interlocutor: 1 }),
            out: vec![
                Notification {
                    recipient: Recipient::Moderator,
                    content: Content::Flagged { sender: 2, text: "see HTTP://x.y".to_string() },
                    reply: None,
                },
                forwarded(1, Payload::Text("see HTTP://x.y".to_string())),
            ],
        }
    );
    assert_eq!(receive_message(&db, 1, nothing()), one(Some(State::Dialog { interlocutor: 2 }), 1, Notice::UnsupportedFormat));
    assert_eq!(receive_message(&db, 3, text("hi")), one(Some(State::Idle), 3, Notice::NotInDialog));
    assert_eq!(receive_message(&db, 9, text("hi")), one(Some(State::Start), 9, Notice::RegisterFirst));
    assert_eq!(idle(&db, 1, text("hi")), receive_message(&db, 1, text("hi")));
}

#[test]
fn no_text_is_read_as_a_command() {
    let db = talking();
    for words in ["nonstop fun", "stop", "/stop", "let us search", "/search", "research", "/next", "cancel"] {
        assert_eq!(
            receive_message(&db, 1, text(words)),
            Step {
                state: Some(State::Dialog { interlocutor: 2 }),
                out: vec![forwarded(2, Payload::Text(words.to_string()))],
            }
        );
        assert_eq!(
            idle(&db, 2, text(words)),
            Step {
                state: Some(State::Dialog { interlocutor: 1 }),
                out: vec![forwarded(1, Payload::Text(words.to_string()))],
            }
        );
    }
    assert_eq!(db.get_total_chats(), 1);
    assert_eq!(db.get_chat(1), Some(2));
    assert_eq!(db.get_user(1).unwrap().state, UserState::Dialog);
    assert_eq!(db.get_user(2).unwrap().state, UserState::Dialog);
    assert!(db.is_consistent());
}

#[test]
fn banned_sender_is_refused() {
    let mut db = talking();
    assert_eq!(db.ban_user(1), Ok(()));
    assert_eq!(receive_message(&db, 1, text("hi")), one(Some(State::Dialog { interlocutor: 2 }), 1, Notice::Banned));
}

#[test]
fn text_answers_go_out_as_answers() {
    let db = talking();
    let answer = Incoming { reply_to: Some(40), ..text("yes") };
    assert_eq!(
        receive_message(&db, 1, answer.clone()),
        Step {
            state: Some(State::Dialog { interlocutor: 2 }),
            out: vec![Notification {
                recipient: Recipient::User(2),
                content: Content::Forward(Payload::Text("yes".to_string())),
                reply: Some(ReplyTo { first: 39, second: 41 }),
            }],
        }
    );
    let flagged = Incoming { reply_to: Some(7), ..text("http") };
    let out = relay_out(1, 2, flagged, true);
    assert_eq!(out.len(), 2);
    assert_eq!(out[0].recipient, Recipient::Moderator);
    assert_eq!(out[0].reply, None);
    assert_eq!(out[1], forward(2, Payload::Text("http".to_string()), Some(ReplyTo { first: 6, second: 8 })));
    let photo = Incoming { photo: Some("p".to_string()), reply_to: Some(7), ..nothing() };
    assert_eq!(relay_out(1, 2, photo, false)[0].reply, None);
    assert_eq!(reply_ids(None), None);
    assert_eq!(reply_ids(Some(0)), Some(ReplyTo { first: -1, second: 1 }));
    assert_eq!(reply_ids(Some(i32::MAX)), None);
    assert_eq!(reply_ids(Some(i32::MIN)), None);
    assert_eq!(reply_ids(Some(i32::MAX - 1)), Some(ReplyTo { first: i32::MAX - 2, second: i32::MAX }));
    assert_eq!(reply_ids(Some(i32::MIN + 1)), Some(ReplyTo { first: i32::MIN, second: i32::MIN + 2 }));
}

#[test]
fn media_go_by_kind() {
    let file = |s: &str| Some(s.to_string());
    let media = |kind, f: &str, caption: Option<&str>| Payload::MediaRef { kind, file: f.to_string(), caption: caption.map(|c| c.to_string()) };
    let all = Incoming {
        text: file("t"), caption: file("cap"), voice: file("v"), sticker: file("s"),
        photo: file("p"), video: file("vd"), animation: file("a"), video_note: file("vn"),
        reply_to: None,
    };
    assert_eq!(all.clone().into_payload(), Some(media(MediaKind::Voice, "v", Some("cap"))));
    let m = Incoming { voice: None, ..all.clone() };
    assert_eq!(m.into_payload(), Some(media(MediaKind::Sticker, "s", Some("cap"))));
    let m = Incoming { voice: None, sticker: None, ..all.clone() };
    assert_eq!(m.into_payload(), Some(media(MediaKind::Photo, "p", Some("cap"))));
    let m = Incoming { voice: None, sticker: None, photo: None, ..all.clone() };
    assert_eq!(m.into_payload(), Some(media(MediaKind::Video, "vd", Some("cap"))));
    let m = Incoming { voice: None, sticker: None, photo: None, video: None, ..all.clone() };
    assert_eq!(m.into_payload(), Some(media(MediaKind::Animation, "a", Some("cap"))));
    let m = Incoming { voice: None, sticker: None, photo: None, video: None, animation: None, ..all.clone() };
    assert_eq!(m.into_payload(), Some(media(MediaKind::VideoNote, "vn", Some("cap"))));
    let m = Incoming { voice: file("v"), caption: None, ..nothing() };
    assert_eq!(m.into_payload(), Some(media(MediaKind::Voice, "v", None)));
    let m = Incoming { text: file("t"), ..nothing() };
    assert_eq!(m.into_payload(), Some(Payload::Text("t".to_string())));
    assert_eq!(nothing().into_payload(), None);
    let photo = Incoming { photo: file("p"), caption: None, text: file("http"), ..nothing() };
    assert_eq!(relay_out(1, 2, photo, true), vec![forwarded(2, media(MediaKind::Photo, "p", None))]);
    assert_eq!(relay_out(1, 2, text("x"), false), vec![forwarded(2, Payload::Text("x".to_string()))]);
    assert_eq!(relay_out(1, 2, nothing(), true), vec![told(1, Notice::UnsupportedFormat)]);
    let voice = Incoming { voice: file("v"), caption: file("listen"), ..nothing() };
    let db = talking();
    assert_eq!(
        receive_message(&db, 1, voice),
        Step {
            state: Some(State::Dialog { interlocutor: 2 }),
            out: vec![forwarded(2, media(MediaKind::Voice, "v", Some("listen")))],
        }
    );
}

#[test]
fn ratings_tell_who_is_banned() {
    let mut db = pair();
    assert_eq!(db.decrease_reputation(2, 19), Ok(false));
    assert_eq!(reactions_callback(&mut db, 1, Some("like_2")), Step { state: Some(State::Idle), out: vec![] });
    assert_eq!(db.get_user(2).unwrap().reputation, -18);
    assert_eq!(reactions_callback(&mut db, 1, Some("dislike_2")), Step { state: Some(State::Idle), out: vec![] });
    assert_eq!(
        reactions_callback(&mut db, 1, Some("dislike_2")),
        Step { state: Some(State::Idle), out: vec![told(2, Notice::BannedByReputation)] }
    );
    assert_eq!(reactions_callback(&mut db, 1, Some("dislike_2")), Step { state: Some(State::Idle), out: vec![] });
    assert_eq!(reactions_callback(&mut db, 1, Some("dislike")), Step { state: Some(State::Idle), out: vec![] });
    assert_eq!(reactions_callback(&mut db, 1, None), Step { state: Some(State::Idle), out: vec![] });
    assert_eq!(db.get_user(2).unwrap().reputation, -21);
    assert_eq!(reactions_callback(&mut db, 1, Some("like_77")), one(Some(State::Idle), 1, Notice::RegisterFirst));
    assert_eq!(reactions_callback(&mut db, 2, Some("like_1")), one(Some(State::Idle), 2, Notice::Banned));
    assert_eq!(
        reaction_given(&mut db, 1, Some(Reaction { target: 3, positive: true })),
        Step { state: Some(State::Idle), out: vec![] }
    );
    assert_eq!(db.get_user(3).unwrap().reputation, 1);
}

#[test]
fn profile_edits() {
    let mut db = pair();
    assert_eq!(set_name(&db, 1), one(Some(State::SetNickname), 1, Notice::AskNewNickname));
    assert_eq!(set_age(&db, 1), one(Some(State::SetAge), 1, Notice::AskNewAge));
    assert_eq!(set_gender(&db, 1), one(Some(State::SetGender), 1, Notice::AskNewGender));
    assert_eq!(set_name(&db, 9), one(Some(State::Start), 9, Notice::RegisterFirst));
    assert_eq!(receive_set_nickname(&mut db, 1, Some("zed")), one(Some(State::Idle), 1, Notice::Done));
    assert_eq!(receive_set_nickname(&mut db, 1, None), one(None, 1, Notice::InvalidInput));
    assert_eq!(receive_set_age(&mut db, 1, Some("40")), one(Some(State::Idle), 1, Notice::Done));
    assert_eq!(receive_set_age(&mut db, 1, Some("5")), one(Some(State::Idle), 1, Notice::TooYoung));
    assert_eq!(receive_set_age(&mut db, 1, Some("forty")), one(None, 1, Notice::InvalidInput));
    assert_eq!(new_age_given(&mut db, 1, Some(41)), one(Some(State::Idle), 1, Notice::Done));
    assert_eq!(receive_set_gender(&mut db, 1, Some("Женский ♀")), one(Some(State::Idle), 1, Notice::Done));
    assert_eq!(receive_set_gender(&mut db, 1, None), Step { state: None, out: vec![] });
    let u = db.get_user(1).unwrap();
    assert_eq!((u.nickname.as_str(), u.age, u.gender), ("zed", 41, Gender::Female));
    assert_eq!(db.begin_search(1, Gender::Female, ChatType::Regular), Ok(None));
    assert_eq!(set_age(&db, 1), one(Some(State::Search), 1, Notice::BusySearching));
    assert_eq!(receive_set_nickname(&mut db, 1, Some("q")), one(Some(State::Search), 1, Notice::BusySearching));
    let mut db = talking();
    assert_eq!(set_gender(&db, 1), one(Some(State::Dialog { interlocutor: 2 }), 1, Notice::StopDialogFirst));
    assert_eq!(receive_set_age(&mut db, 1, Some("40")), one(Some(State::Dialog { interlocutor: 2 }), 1, Notice::StopDialogFirst));
}

#[test]
fn administrator_acts_on_users() {
    let mut db = talking();
    assert_eq!(ban(&mut db, 50, false, Some(1)), Step { state: None, out: vec![] });
    assert!(!db.get_user(1).unwrap().is_banned);
    assert_eq!(ban(&mut db, 50, true, None), one(None, 50, Notice::InvalidInput));
    assert_eq!(ban(&mut db, 50, true, Some(1)), one(None, 50, Notice::Done));
    assert!(db.get_user(1).unwrap().is_banned);
    assert_eq!(ban(&mut db, 50, true, Some(77)), one(None, 50, Notice::Failure));
    assert_eq!(unban(&mut db, 50, false, Some(1)), Step { state: None, out: vec![] });
    assert!(db.get_user(1).unwrap().is_banned);
    assert_eq!(unban(&mut db, 50, true, Some(1)), one(None, 50, Notice::Done));
    assert!(!db.get_user(1).unwrap().is_banned);
    assert_eq!(delete_user(&mut db, 50, false, Some(1)), Step { state: None, out: vec![] });
    assert_eq!(delete_user(&mut db, 50, true, Some(1)), one(None, 50, Notice::Done));
    assert_eq!(db.get_user(1), None);
    assert_eq!(db.get_user(2).unwrap().state, UserState::Idle);
    assert_eq!(delete_user(&mut db, 50, true, Some(1)), one(None, 50, Notice::Failure));
}

#[test]
fn targets_are_read_from_the_first_word() {
    assert_eq!(read_target(Some("123")), Some(123));
    assert_eq!(read_target(Some("-9")), Some(-9));
    assert_eq!(read_target(Some("12a")), None);
    assert_eq!(read_target(Some("")), None);
    assert_eq!(read_target(None), None);
}

#[test]
fn administrator_sees_figures_and_reaches_everybody() {
    let mut db = talking();
    assert_eq!(db.begin_search(3, Gender::Male, ChatType::Vulgar), Ok(None));
    assert_eq!(admin(&db, false), None);
    assert_eq!(
        admin(&db, true),
        Some(Stats { users: 3, males: 1, females: 2, chats: 1, queue: 1, queued_males: 0, queued_females: 1 })
    );
    assert_eq!(admin_message(&db, false, "news"), vec![]);
    assert_eq!(
        admin_message(&db, true, "news"),
        vec![
            forwarded(1, Payload::Text("news".to_string())),
            forwarded(2, Payload::Text("news".to_string())),
            forwarded(3, Payload::Text("news".to_string())),
        ]
    );
}

#[test]
fn routes() {
    let dialog = State::Dialog { interlocutor: 2 };
    assert_eq!(route_message(&State::Idle, Some(Command::Start)), Route::Start);
    assert_eq!(route_message(&dialog, Some(Command::Stop)), Route::Stop);
    assert_eq!(route_message(&State::Idle, Some(Command::Stop)), Route::Stop);
    assert_eq!(route_message(&State::Search, Some(Command::Stop)), Route::Stop);
    assert_eq!(route_message(&State::ReceiveAge, Some(Command::Stop)), Route::ReceiveAge);
    assert_eq!(route_message(&State::SetNickname, Some(Command::Stop)), Route::ReceiveSetNickname);
    assert_eq!(route_message(&State::SetGender, Some(Command::Stop)), Route::Ignore);
    assert_eq!(route_message(&dialog, Some(Command::Search)), Route::Search);
    assert_eq!(route_message(&State::Idle, Some(Command::Search)), Route::Search);
    assert_eq!(route_message(&State::Search, Some(Command::Search)), Route::Search);
    assert_eq!(route_message(&dialog, None), Route::ReceiveMessage);
    assert_eq!(route_message(&State::Search, None), Route::ReceiveMessage);
    assert_eq!(route_message(&State::Idle, Some(Command::Next)), Route::Next);
    assert_eq!(route_message(&State::Idle, Some(Command::Cancel)), Route::Cancel);
    assert_eq!(route_message(&State::Idle, Some(Command::SetName)), Route::SetName);
    assert_eq!(route_message(&State::Idle, Some(Command::SetAge)), Route::SetAge);
    assert_eq!(route_message(&State::Idle, Some(Command::SetGender)), Route::SetGender);
    assert_eq!(route_message(&State::Idle, Some(Command::Help)), Route::Idle);
    assert_eq!(route_message(&State::Idle, Some(Command::Ban)), Route::Service(Command::Ban));
    assert_eq!(route_message(&State::Idle, Some(Command::Top)), Route::Service(Command::Top));
    assert_eq!(route_message(&State::Idle, Some(Command::Delete)), Route::Service(Command::Delete));
    assert_eq!(route_message(&State::Idle, None), Route::Idle);
    assert_eq!(route_by_state(&State::Start), Route::Start);
    assert_eq!(route_by_state(&State::SetAge), Route::ReceiveSetAge);
    assert_eq!(route_by_state(&State::SetNickname), Route::ReceiveSetNickname);
    assert_eq!(route_by_state(&State::ReceiveAge), Route::ReceiveAge);
    assert_eq!(route_by_state(&State::ReceiveNickname { age: 20 }), Route::ReceiveNickname);
    assert_eq!(route_by_state(&State::Search), Route::ReceiveMessage);
    assert_eq!(route_by_state(&dialog), Route::ReceiveMessage);
    assert_eq!(route_by_state(&State::SetGender), Route::Ignore);
    assert_eq!(route_by_state(&State::SearchChooseGender), Route::Ignore);
    assert_eq!(route_callback(&State::ReceiveGender { age: 20, nickname: "n".to_string() }), Route::ReceiveGender);
    assert_eq!(route_callback(&State::SearchChooseChatType { gender: Gender::Male }), Route::ChatTypeCallback);
    assert_eq!(route_callback(&State::SetGender), Route::ReceiveSetGender);
    assert_eq!(route_callback(&State::Idle), Route::ReactionsCallback);
    assert_eq!(route_callback(&State::SearchChooseGender), Route::SearchCallback);
    assert_eq!(route_callback(&State::Search), Route::SearchCallback);
    assert_eq!(route_callback(&dialog), Route::SearchCallback);
}
