use anon_chat::callbacks::{chat_type_choice, decode_reaction, gender_choice, make_reaction, Reaction};
use anon_chat::models::chat_type::ChatType;
use anon_chat::models::gender::Gender;
use anon_chat::models::user::{User, BAN_REPUTATION, MIN_AGE};
use anon_chat::moderation::{is_suspicious, is_suspicious_lowercase};
use anon_chat::state::State;
use anon_chat::text::{find_field_end, find_second_field};
use anon_chat::user_state::UserState;

#[test]
fn gender_from_str_reads_any_case() {
    assert_eq!(Gender::from_str("male"), Ok(Gender::Male));
    assert_eq!(Gender::from_str("Male"), Ok(Gender::Male));
    assert_eq!(Gender::from_str("FEMALE"), Ok(Gender::Female));
    assert_eq!(Gender::from_str("fEmAlE"), Ok(Gender::Female));
}

#[test]
fn gender_from_str_refuses_other_words() {
    assert_eq!(Gender::from_str(""), Err("Invalid gender string"));
    assert_eq!(Gender::from_str("males"), Err("Invalid gender string"));
    assert_eq!(Gender::from_str(" male"), Err("Invalid gender string"));
    assert_eq!(Gender::from_str("0"), Err("Invalid gender string"));
}

#[test]
fn gender_from_lowercase_is_exact() {
    assert_eq!(Gender::from_lowercase("male"), Ok(Gender::Male));
    assert_eq!(Gender::from_lowercase("female"), Ok(Gender::Female));
    assert_eq!(Gender::from_lowercase("Male"), Err("Invalid gender string"));
    assert_eq!(Gender::from_lowercase("FEMALE"), Err("Invalid gender string"));
}

#[test]
fn gender_to_string_names_it() {
    assert_eq!(Gender::Male.to_string(), "Male");
    assert_eq!(Gender::Female.to_string(), "Female");
    assert_eq!(Gender::from_str(&Gender::Male.to_string()), Ok(Gender::Male));
    assert_eq!(Gender::from_str(&Gender::Female.to_string()), Ok(Gender::Female));
}

#[test]
fn gender_from_code() {
    assert_eq!(Gender::from(1), Gender::Female);
    assert_eq!(Gender::from(0), Gender::Male);
    assert_eq!(Gender::from(2), Gender::Male);
    assert_eq!(Gender::from(-1), Gender::Male);
    assert_eq!(Gender::Male.to_i32(), 0);
    assert_eq!(Gender::Female.to_i32(), 1);
}

#[test]
fn chat_type_codes() {
    assert_eq!(ChatType::from(0), ChatType::Regular);
    assert_eq!(ChatType::from(1), ChatType::Vulgar);
    assert_eq!(ChatType::Regular.to_i32(), 0);
    assert_eq!(ChatType::Vulgar.to_i32(), 1);
}

#[test]
fn user_state_codes() {
    assert_eq!(UserState::from(0), UserState::Default);
    assert_eq!(UserState::from(1), UserState::Idle);
    assert_eq!(UserState::from(2), UserState::Search);
    assert_eq!(UserState::from(3), UserState::Dialog);
    assert_eq!(UserState::from(4), UserState::Default);
    assert_eq!(UserState::from(-7), UserState::Default);
    assert_eq!(UserState::Default.to_i32(), 0);
    assert_eq!(UserState::Idle.to_i32(), 1);
    assert_eq!(UserState::Search.to_i32(), 2);
    assert_eq!(UserState::Dialog.to_i32(), 3);
}

#[test]
fn new_user_is_fresh() {
    let u = User::new(7, 33, "nick".to_string(), Gender::Female);
    assert_eq!(u.id, 7);
    assert_eq!(u.age, 33);
    assert_eq!(u.nickname, "nick");
    assert_eq!(u.gender, Gender::Female);
    assert_eq!(u.search_gender, None);
    assert_eq!(u.chat_type, None);
    assert_eq!(u.state, UserState::Default);
    assert_eq!(u.reputation, 0);
    assert!(!u.is_banned);
    assert_eq!(u.referrals, 0);
    assert_eq!(u.duplicate(), u);
}

#[test]
fn constants_have_their_values() {
    assert_eq!(BAN_REPUTATION, -20);
    assert_eq!(MIN_AGE, 12);
}

#[test]
fn default_state_is_start() {
    assert_eq!(State::default(), State::Start);
}

#[test]
fn denylist_words_are_found() {
    assert!(is_suspicious_lowercase("see http://example.org"));
    assert!(is_suspicious_lowercase("https"));
    assert!(is_suspicious_lowercase("продам гараж"));
    assert!(is_suspicious_lowercase("я продаю"));
    assert!(is_suspicious_lowercase("детское"));
    assert!(is_suspicious_lowercase("цп"));
    assert!(!is_suspicious_lowercase("hello there"));
    assert!(!is_suspicious_lowercase(""));
    assert!(!is_suspicious_lowercase("htt p"));
}

#[test]
fn denylist_ignores_case() {
    assert!(is_suspicious("HTTP://EXAMPLE.ORG"));
    assert!(is_suspicious("ПРОДАМ"));
    assert!(!is_suspicious_lowercase("HTTP://EXAMPLE.ORG"));
    assert!(!is_suspicious("Hello"));
}

#[test]
fn fields_are_cut_at_underscores() {
    assert_eq!(find_field_end("like_12", 0), 4);
    assert_eq!(find_field_end("like_12", 5), 7);
    assert_eq!(find_field_end("like", 0), 4);
    assert_eq!(find_field_end("", 0), 0);
    assert_eq!(find_field_end("_x", 0), 0);
    assert_eq!(find_second_field("like_12"), Some("12"));
    assert_eq!(find_second_field("a_b_c"), Some("b"));
    assert_eq!(find_second_field("a_"), Some(""));
    assert_eq!(find_second_field("a__b"), Some(""));
    assert_eq!(find_second_field("like"), None);
    assert_eq!(find_second_field(""), None);
    assert_eq!(find_second_field("да_нет"), Some("нет"));
}

#[test]
fn reactions_are_decoded() {
    assert_eq!(decode_reaction("like_42"), Some(Reaction { target: 42, positive: true }));
    assert_eq!(decode_reaction("dislike_42"), Some(Reaction { target: 42, positive: false }));
    assert_eq!(decode_reaction("like_-5"), Some(Reaction { target: -5, positive: true }));
    assert_eq!(
        decode_reaction("dislike_9223372036854775807"),
        Some(Reaction { target: i64::MAX, positive: false })
    );
    assert_eq!(decode_reaction("like_9223372036854775808"), None);
    assert_eq!(decode_reaction("like_"), None);
    assert_eq!(decode_reaction("like"), None);
    assert_eq!(decode_reaction("like_abc"), None);
    assert_eq!(decode_reaction("like_4_2"), Some(Reaction { target: 4, positive: true }));
}

#[test]
fn reaction_is_made_of_target_and_kind() {
    assert_eq!(make_reaction(Some(3), true), Some(Reaction { target: 3, positive: false }));
    assert_eq!(make_reaction(Some(3), false), Some(Reaction { target: 3, positive: true }));
    assert_eq!(make_reaction(None, false), None);
}

#[test]
fn buttons_are_read() {
    assert_eq!(gender_choice("Мужской ♂"), Gender::Male);
    assert_eq!(gender_choice("Женский ♀"), Gender::Female);
    assert_eq!(gender_choice("anything"), Gender::Female);
    assert_eq!(chat_type_choice("vulgar"), ChatType::Vulgar);
    assert_eq!(chat_type_choice("regular"), ChatType::Regular);
    assert_eq!(chat_type_choice(""), ChatType::Regular);
}
