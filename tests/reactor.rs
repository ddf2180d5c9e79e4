use matrix_sdk::RoomState;
use party_bot::reactor::{on_room_message, Bot};
use party_bot::text::contains_str;

const REPLY: &str = "\u{1F389}\u{1F38A}\u{1F973} let's PARTY!! \u{1F973}\u{1F38A}\u{1F389}";

#[test]
fn exact_trigger_gets_one_reply() {
    assert_eq!(on_room_message(RoomState::Joined, Some("!party")), Some(REPLY.to_string()));
}

#[test]
fn trigger_inside_text_gets_reply() {
    assert_eq!(
        on_room_message(RoomState::Joined, Some("time to !party now")),
        Some(REPLY.to_string())
    );
}

#[test]
fn text_without_trigger_is_ignored() {
    assert_eq!(on_room_message(RoomState::Joined, Some("party time")), None);
    assert_eq!(on_room_message(RoomState::Joined, Some("!part")), None);
    assert_eq!(on_room_message(RoomState::Joined, Some("")), None);
}

#[test]
fn non_text_message_is_ignored() {
    assert_eq!(on_room_message(RoomState::Joined, None), None);
}

#[test]
fn rooms_not_joined_are_ignored() {
    assert_eq!(on_room_message(RoomState::Invited, Some("!party")), None);
    assert_eq!(on_room_message(RoomState::Left, Some("!party")), None);
}

#[test]
fn backlog_is_not_answered() {
    let bot = Bot::new();
    assert!(!bot.is_listening());
    assert_eq!(bot.handle_message(RoomState::Joined, Some("!party")), None);
}

#[test]
fn continuous_sync_starts_from_first_cursor() {
    let mut bot = Bot::new();
    let token = bot.initial_sync_done(Some("tok123".to_string()));
    assert_eq!(token, Some("tok123".to_string()));
    assert!(bot.is_listening());
    assert_eq!(bot.handle_message(RoomState::Joined, Some("!party")), Some(REPLY.to_string()));
    assert_eq!(bot.handle_message(RoomState::Left, Some("!party")), None);
}

#[test]
fn continuous_sync_without_cursor_uses_default_start() {
    let mut bot = Bot::new();
    assert_eq!(bot.initial_sync_done(None), None);
    assert!(bot.is_listening());
}

#[test]
fn substring_search() {
    assert!(contains_str("abc!partyxyz", "!party"));
    assert!(contains_str("abc", ""));
    assert!(contains_str("", ""));
    assert!(!contains_str("", "a"));
    assert!(!contains_str("ab", "abc"));
    assert!(contains_str("\u{1F389}!party", "!party"));
    assert!(!contains_str("!parT", "!party"));
}
