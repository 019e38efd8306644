//! Checks of the value types' ownership behaviour: strings and nested values are
//! copied in and handed out as owned copies, and optional fields keep "absent"
//! apart from "empty".

use discord_social_sdk::enums::ActivityType;
use discord_social_sdk::{Activity, ActivityButton, ActivityParty};

#[test]
fn strings_round_trip_through_the_sdk() {
    let mut activity = Activity::new();

    activity.set_name("Test Game");
    assert_eq!(activity.name(), "Test Game");

    // Non-ASCII proves the boundary is length-delimited, not NUL-terminated.
    activity.set_name("🎮 テスト");
    assert_eq!(activity.name(), "🎮 テスト");

    // An embedded NUL must survive, since strings carry an explicit size.
    activity.set_name("a\0b");
    assert_eq!(activity.name(), "a\0b");
}

#[test]
fn optional_fields_distinguish_absent_from_empty() {
    let mut activity = Activity::new();

    // Never set: absent, not empty.
    assert_eq!(activity.state(), None);

    activity.set_state(Some("in a match"));
    assert_eq!(activity.state(), Some("in a match".to_string()));

    // An empty string is a value, distinct from clearing the field.
    activity.set_state(Some(""));
    assert_eq!(activity.state(), Some(String::new()));

    activity.set_state(None);
    assert_eq!(activity.state(), None);
}

#[test]
fn enums_round_trip() {
    let mut activity = Activity::new();

    activity.set_activity_type(ActivityType::Playing);
    assert_eq!(activity.activity_type(), ActivityType::Playing);

    activity.set_activity_type(ActivityType::Competing);
    assert_eq!(activity.activity_type(), ActivityType::Competing);
}

#[test]
fn spans_transfer_ownership_of_every_element() {
    let mut activity = Activity::new();

    activity.add_button(&ActivityButton::with_label_and_url("Play", "https://example.com/1"));
    activity.add_button(&ActivityButton::with_label_and_url("Watch", "https://example.com/2"));

    let buttons = activity.buttons();
    assert_eq!(buttons.len(), 2);
    assert_eq!(buttons[0].label(), "Play");
    assert_eq!(buttons[1].url(), "https://example.com/2");

    // Dropping the owned Vec must not disturb the activity that produced it.
    drop(buttons);
    assert_eq!(activity.buttons().len(), 2);
}

#[test]
fn clone_produces_an_independent_handle() {
    let mut original = Activity::new();
    original.set_name("original");

    let mut copy = original.clone();
    copy.set_name("copy");

    // Mutating the clone must not reach through to the source.
    assert_eq!(original.name(), "original");
    assert_eq!(copy.name(), "copy");

    // Dropping one must leave the other usable, proving the values are distinct.
    drop(copy);
    assert_eq!(original.name(), "original");
}

#[test]
fn nested_handles_are_owned_by_the_caller() {
    let mut activity = Activity::new();

    let mut party = ActivityParty::new();
    party.set_id("party-1");
    party.set_current_size(2);
    party.set_max_size(4);

    // The setter copies, so the local party stays ours to drop.
    activity.set_party(Some(&party));
    drop(party);

    let fetched = activity.party().expect("party was just set");
    assert_eq!(fetched.id(), "party-1");
    assert_eq!(fetched.current_size(), 2);
    assert_eq!(fetched.max_size(), 4);
}

#[test]
fn many_handles_can_be_created_and_dropped() {
    // Nothing accumulates per value.
    for i in 0..1000 {
        let mut activity = Activity::new();
        activity.set_name(&format!("activity {i}"));
        activity.set_details(Some("details"));
        let _ = activity.name();
        let _ = activity.clone();
    }
}
