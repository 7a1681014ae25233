use anon_chat::database::Database;
use anon_chat::error::Error;
use anon_chat::models::chat_type::ChatType;
use anon_chat::models::gender::Gender;
use anon_chat::service::NextOutcome;
use anon_chat::state::State;
use anon_chat::store::Chat;
use anon_chat::user_state::UserState;

fn world() -> Database {
    let mut db = Database::new();
    assert_eq!(db.register(100, 20, "a".to_string(), Gender::Male), Ok(()));
    assert_eq!(db.register(200, 21, "b".to_string(), Gender::Female), Ok(()));
    assert_eq!(db.register(300, 22, "c".to_string(), Gender::Female), Ok(()));
    assert_eq!(db.register(400, 23, "d".to_string(), Gender::Male), Ok(()));
    db
}

fn state_of(db: &Database, id: i64) -> UserState {
    db.get_user(id).unwrap().state
}

#[test]
fn two_fitting_users_are_paired() {
    let mut db = world();
    assert_eq!(db.begin_search(100, Gender::Female, ChatType::Regular), Ok(None));
    assert_eq!(state_of(&db, 100), UserState::Search);
    assert_eq!(db.begin_search(200, Gender::Male, ChatType::Regular), Ok(Some(100)));
    assert_eq!(db.get_queue_count(), 0);
    assert_eq!(db.get_chats(), vec![Chat { chat_one: 200, chat_two: 100, chat_type: ChatType::Regular }]);
    assert_eq!(db.get_chat(100), Some(200));
    assert_eq!(db.get_chat(200), Some(100));
    assert_eq!(state_of(&db, 100), UserState::Dialog);
    assert_eq!(state_of(&db, 200), UserState::Dialog);
}

#[test]
fn two_fitting_users_are_paired_in_the_other_order() {
    let mut db = world();
    assert_eq!(db.begin_search(200, Gender::Male, ChatType::Regular), Ok(None));
    assert_eq!(db.begin_search(100, Gender::Female, ChatType::Regular), Ok(Some(200)));
    assert_eq!(db.get_queue_count(), 0);
    assert_eq!(db.get_total_chats(), 1);
    assert_eq!(db.get_chat(100), Some(200));
    assert_eq!(state_of(&db, 100), UserState::Dialog);
    assert_eq!(state_of(&db, 200), UserState::Dialog);
}

#[test]
fn lone_search_waits_until_cancelled() {
    let mut db = world();
    assert_eq!(db.begin_search(300, Gender::Male, ChatType::Vulgar), Ok(None));
    assert_eq!(db.get_queue_count(), 1);
    let queue = db.get_queue();
    assert_eq!(queue[0].user_id, 300);
    assert_eq!(queue[0].search_gender, Gender::Male);
    assert_eq!(queue[0].searcher_gender, Gender::Female);
    assert_eq!(queue[0].chat_type, ChatType::Vulgar);
    assert_eq!(state_of(&db, 300), UserState::Search);
    assert_eq!(db.cancel_search(300), Ok(()));
    assert_eq!(db.get_queue_count(), 0);
    assert_eq!(state_of(&db, 300), UserState::Idle);
}

#[test]
fn categories_must_agree() {
    let mut db = world();
    assert_eq!(db.begin_search(100, Gender::Female, ChatType::Regular), Ok(None));
    assert_eq!(db.begin_search(200, Gender::Male, ChatType::Vulgar), Ok(None));
    assert_eq!(db.get_queue_count(), 2);
    assert_eq!(db.get_total_chats(), 0);
}

#[test]
fn interleaved_pairs_do_not_cross() {
    let mut db = world();
    assert_eq!(db.begin_search(100, Gender::Female, ChatType::Regular), Ok(None));
    assert_eq!(db.begin_search(400, Gender::Female, ChatType::Vulgar), Ok(None));
    assert_eq!(db.begin_search(300, Gender::Male, ChatType::Vulgar), Ok(Some(400)));
    assert_eq!(db.begin_search(200, Gender::Male, ChatType::Regular), Ok(Some(100)));
    assert_eq!(db.get_queue_count(), 0);
    assert_eq!(db.get_total_chats(), 2);
    assert_eq!(db.get_chat(100), Some(200));
    assert_eq!(db.get_chat(300), Some(400));
}

#[test]
fn register_refusals() {
    let mut db = world();
    assert_eq!(db.register(100, 30, "again".to_string(), Gender::Male), Err(Error::InvalidStateTransition));
    assert_eq!(db.register(500, 11, "young".to_string(), Gender::Male), Err(Error::InvalidStateTransition));
    assert_eq!(db.register(500, 12, "old enough".to_string(), Gender::Male), Ok(()));
    assert_eq!(db.ban_user(100), Ok(()));
    assert_eq!(db.register(100, 30, "again".to_string(), Gender::Male), Err(Error::Banned));
    assert_eq!(db.get_total_users(), 5);
    assert_eq!(db.get_user(100).unwrap().nickname, "a");
}

#[test]
fn search_refusals_change_nothing() {
    let mut db = world();
    assert_eq!(db.begin_search(999, Gender::Male, ChatType::Regular), Err(Error::NotRegistered));
    assert_eq!(db.ban_user(400), Ok(()));
    assert_eq!(db.begin_search(400, Gender::Female, ChatType::Regular), Err(Error::Banned));
    assert_eq!(db.begin_search(100, Gender::Female, ChatType::Regular), Ok(None));
    assert_eq!(db.begin_search(100, Gender::Female, ChatType::Vulgar), Err(Error::InvalidStateTransition));
    assert_eq!(db.begin_search(200, Gender::Male, ChatType::Regular), Ok(Some(100)));
    assert_eq!(db.begin_search(200, Gender::Male, ChatType::Regular), Err(Error::InvalidStateTransition));
    assert_eq!(db.get_queue_count(), 0);
    assert_eq!(db.get_total_chats(), 1);
}

#[test]
fn search_reports_a_partner_without_profile() {
    let mut db = world();
    assert_eq!(db.enqueue_user(777, Gender::Male, Gender::Female, ChatType::Regular), Ok(None));
    assert_eq!(db.begin_search(100, Gender::Female, ChatType::Regular), Err(Error::StorageFailure));
    assert_eq!(db.get_queue_count(), 1);
    assert_eq!(db.get_total_chats(), 0);
    assert_eq!(state_of(&db, 100), UserState::Default);
    assert_eq!(db.get_user(100).unwrap().search_gender, None);
}

#[test]
fn search_remembers_the_filters() {
    let mut db = world();
    assert_eq!(db.begin_search(100, Gender::Female, ChatType::Vulgar), Ok(None));
    let u = db.get_user(100).unwrap();
    assert_eq!(u.search_gender, Some(Gender::Female));
    assert_eq!(u.chat_type, Some(ChatType::Vulgar));
}

#[test]
fn cancel_is_idempotent() {
    let mut db = world();
    assert_eq!(db.cancel_search(100), Ok(()));
    assert_eq!(state_of(&db, 100), UserState::Default);
    assert_eq!(db.cancel_search(999), Ok(()));
    assert_eq!(db.begin_search(100, Gender::Female, ChatType::Regular), Ok(None));
    assert_eq!(db.cancel_search(100), Ok(()));
    assert_eq!(db.cancel_search(100), Ok(()));
    assert_eq!(db.get_queue_count(), 0);
    assert_eq!(state_of(&db, 100), UserState::Idle);
}

#[test]
fn cancel_is_refused_to_the_banned() {
    let mut db = world();
    assert_eq!(db.begin_search(100, Gender::Female, ChatType::Regular), Ok(None));
    assert_eq!(db.ban_user(100), Ok(()));
    assert_eq!(db.cancel_search(100), Err(Error::Banned));
    assert_eq!(db.get_queue_count(), 1);
}

#[test]
fn stop_frees_both_and_happens_once() {
    let mut db = world();
    assert_eq!(db.begin_search(100, Gender::Female, ChatType::Regular), Ok(None));
    assert_eq!(db.begin_search(200, Gender::Male, ChatType::Regular), Ok(Some(100)));
    assert_eq!(db.stop_dialog(100), Ok(200));
    assert_eq!(state_of(&db, 100), UserState::Idle);
    assert_eq!(state_of(&db, 200), UserState::Idle);
    assert_eq!(db.get_total_chats(), 0);
    assert_eq!(db.stop_dialog(100), Err(Error::InvalidStateTransition));
    assert_eq!(db.stop_dialog(200), Err(Error::InvalidStateTransition));
    assert_eq!(db.stop_dialog(999), Err(Error::NotRegistered));
}

#[test]
fn stop_reports_a_partner_without_profile() {
    let mut db = world();
    assert_eq!(db.create_chat(100, 777, ChatType::Regular), Ok(()));
    assert_eq!(db.stop_dialog(100), Err(Error::StorageFailure));
    assert_eq!(db.get_total_chats(), 1);
}

#[test]
fn next_needs_earlier_filters() {
    let mut db = world();
    assert_eq!(db.advance_next(100), Err(Error::InvalidStateTransition));
    assert_eq!(db.advance_next(999), Err(Error::NotRegistered));
    assert_eq!(db.begin_search(100, Gender::Female, ChatType::Regular), Ok(None));
    assert_eq!(db.advance_next(100), Err(Error::InvalidStateTransition));
    assert_eq!(db.get_queue_count(), 1);
}

#[test]
fn next_leaves_and_searches_again() {
    let mut db = world();
    assert_eq!(db.begin_search(100, Gender::Female, ChatType::Regular), Ok(None));
    assert_eq!(db.begin_search(200, Gender::Male, ChatType::Regular), Ok(Some(100)));
    assert_eq!(db.begin_search(300, Gender::Male, ChatType::Regular), Ok(None));
    assert_eq!(db.advance_next(100), Ok(NextOutcome { stopped: Some(200), matched: Some(300) }));
    assert_eq!(state_of(&db, 200), UserState::Idle);
    assert_eq!(state_of(&db, 100), UserState::Dialog);
    assert_eq!(state_of(&db, 300), UserState::Dialog);
    assert_eq!(db.get_chat(100), Some(300));
    assert_eq!(db.get_chat(200), None);
    assert_eq!(db.advance_next(100), Ok(NextOutcome { stopped: Some(300), matched: None }));
    assert_eq!(state_of(&db, 100), UserState::Search);
    assert_eq!(state_of(&db, 300), UserState::Idle);
    assert_eq!(db.get_queue_count(), 1);
    assert_eq!(db.advance_next(200), Ok(NextOutcome { stopped: None, matched: Some(100) }));
    assert_eq!(db.get_queue_count(), 0);
}

#[test]
fn relay_goes_to_the_partner() {
    let mut db = world();
    assert_eq!(db.relay(100), Err(Error::InvalidStateTransition));
    assert_eq!(db.relay(999), Err(Error::NotRegistered));
    assert_eq!(db.begin_search(100, Gender::Female, ChatType::Regular), Ok(None));
    assert_eq!(db.begin_search(200, Gender::Male, ChatType::Regular), Ok(Some(100)));
    assert_eq!(db.relay(100), Ok(200));
    assert_eq!(db.relay(200), Ok(100));
    assert_eq!(db.ban_user(200), Ok(()));
    assert_eq!(db.relay(200), Err(Error::Banned));
}

#[test]
fn rating_bans_at_the_threshold_once() {
    let mut db = world();
    for _ in 0..19 {
        assert_eq!(db.rate(100, 200, false), Ok(false));
    }
    assert_eq!(db.get_user(200).unwrap().reputation, -19);
    assert!(!db.get_user(200).unwrap().is_banned);
    assert_eq!(db.rate(100, 200, false), Ok(true));
    assert_eq!(db.get_user(200).unwrap().reputation, -20);
    assert!(db.get_user(200).unwrap().is_banned);
    assert_eq!(db.rate(100, 200, false), Ok(false));
    assert!(db.get_user(200).unwrap().is_banned);
    assert_eq!(db.rate(100, 200, true), Ok(false));
    assert_eq!(db.rate(100, 200, true), Ok(false));
    assert_eq!(db.get_user(200).unwrap().reputation, -19);
    assert!(db.get_user(200).unwrap().is_banned);
    assert_eq!(db.rate(200, 100, true), Err(Error::Banned));
    assert_eq!(db.rate(100, 999, true), Err(Error::NotRegistered));
    assert_eq!(db.rate(999, 100, true), Err(Error::NotRegistered));
    assert_eq!(db.get_user(100).unwrap().reputation, 0);
}

#[test]
fn edits_need_a_free_user() {
    let mut db = world();
    assert_eq!(db.edit_nickname(100, "z"), Ok(()));
    assert_eq!(db.edit_age(100, 12), Ok(()));
    assert_eq!(db.edit_age(100, 11), Err(Error::InvalidStateTransition));
    assert_eq!(db.edit_gender(100, Gender::Female), Ok(()));
    let u = db.get_user(100).unwrap();
    assert_eq!((u.nickname.as_str(), u.age, u.gender), ("z", 12, Gender::Female));
    assert_eq!(db.begin_search(100, Gender::Female, ChatType::Regular), Ok(None));
    assert_eq!(db.edit_nickname(100, "y"), Err(Error::InvalidStateTransition));
    assert_eq!(db.edit_gender(100, Gender::Male), Err(Error::InvalidStateTransition));
    assert_eq!(db.edit_age(999, 30), Err(Error::NotRegistered));
    assert_eq!(db.may_edit(100), Err(Error::InvalidStateTransition));
    assert_eq!(db.may_edit(200), Ok(()));
    assert_eq!(db.may_act(100), Ok(()));
    assert_eq!(db.may_act(999), Err(Error::NotRegistered));
}

#[test]
fn resting_state_follows_the_store() {
    let mut db = world();
    assert_eq!(db.resting_state(999), State::Start);
    assert_eq!(db.resting_state(100), State::Idle);
    assert_eq!(db.begin_search(100, Gender::Female, ChatType::Regular), Ok(None));
    assert_eq!(db.resting_state(100), State::Search);
    assert_eq!(db.begin_search(200, Gender::Male, ChatType::Regular), Ok(Some(100)));
    assert_eq!(db.resting_state(100), State::Dialog { interlocutor: 200 });
    assert_eq!(db.resting_state(200), State::Dialog { interlocutor: 100 });
}

#[test]
fn purge_leaves_nothing_behind() {
    let mut db = world();
    assert_eq!(db.begin_search(100, Gender::Female, ChatType::Regular), Ok(None));
    assert_eq!(db.begin_search(200, Gender::Male, ChatType::Regular), Ok(Some(100)));
    assert_eq!(db.begin_search(300, Gender::Male, ChatType::Regular), Ok(None));
    assert_eq!(db.purge(100), Ok(()));
    assert_eq!(db.get_user(100), None);
    assert_eq!(db.get_total_chats(), 0);
    assert_eq!(state_of(&db, 200), UserState::Idle);
    assert_eq!(db.purge(300), Ok(()));
    assert_eq!(db.get_queue_count(), 0);
    assert_eq!(db.purge(300), Err(Error::NotRegistered));
    assert_eq!(db.get_total_users(), 2);
}
