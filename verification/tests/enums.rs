use discord_social_sdk::enums::{
    ActivityActionType, ActivityGamePlatform, ActivityGamePlatforms, ActivityType, ChannelType,
    ClientError, ClientStatus, LoggingSeverity, RelationshipType, StatusType,
};
use discord_social_sdk::ErrorKind;

#[test]
fn platforms_insert_and_contains() {
    let mut set = ActivityGamePlatforms::empty();
    set.insert(ActivityGamePlatform::Desktop);
    set.insert(ActivityGamePlatform::Ps5);
    assert!(set.contains(ActivityGamePlatform::Desktop));
    assert!(!set.contains(ActivityGamePlatform::Xbox));
}

#[test]
fn platforms_bits_round_trip_unknown_bits() {
    let set = ActivityGamePlatforms::from_bits(0x1_0001);
    assert_eq!(set.bits(), 0x1_0001);
    assert!(set.contains(ActivityGamePlatform::Desktop));
    assert!(set.contains(ActivityGamePlatform::Unknown(0x1_0000)));
}

#[test]
fn platforms_empty_and_default_hold_nothing() {
    let all = [
        ActivityGamePlatform::Desktop,
        ActivityGamePlatform::Xbox,
        ActivityGamePlatform::Samsung,
        ActivityGamePlatform::Ios,
        ActivityGamePlatform::Android,
        ActivityGamePlatform::Embedded,
        ActivityGamePlatform::Ps4,
        ActivityGamePlatform::Ps5,
    ];
    for p in all {
        assert!(!ActivityGamePlatforms::empty().contains(p));
        assert!(!ActivityGamePlatforms::default().contains(p));
    }
    assert_eq!(ActivityGamePlatforms::default().bits(), 0);
}

#[test]
fn platforms_zero_flag_is_never_contained() {
    let mut set = ActivityGamePlatforms::from_bits(-1);
    assert!(!set.contains(ActivityGamePlatform::Unknown(0)));
    set.insert(ActivityGamePlatform::Unknown(0));
    assert_eq!(set.bits(), -1);
}

#[test]
fn platforms_insert_is_idempotent_and_keeps_others() {
    let mut set = ActivityGamePlatforms::empty();
    set.insert(ActivityGamePlatform::Xbox);
    set.insert(ActivityGamePlatform::Android);
    let once = set.bits();
    set.insert(ActivityGamePlatform::Android);
    assert_eq!(set.bits(), once);
    assert_eq!(once, 2 | 16);
    assert!(set.contains(ActivityGamePlatform::Xbox));
    assert!(!set.contains(ActivityGamePlatform::Ps4));
}

#[test]
fn platform_raw_values_are_powers_of_two() {
    assert_eq!(ActivityGamePlatform::Desktop.into_raw(), 1);
    assert_eq!(ActivityGamePlatform::Ps5.into_raw(), 128);
    assert_eq!(ActivityGamePlatform::from_raw(8), ActivityGamePlatform::Ios);
    // More than one flag is not a single platform.
    assert_eq!(ActivityGamePlatform::from_raw(3), ActivityGamePlatform::Unknown(3));
}

#[test]
fn unknown_values_round_trip() {
    assert_eq!(ActivityType::from_raw(42), ActivityType::Unknown(42));
    assert_eq!(ActivityType::from_raw(42).into_raw(), 42);
    assert_eq!(ChannelType::from_raw(7), ChannelType::Unknown(7));
    assert_eq!(ChannelType::from_raw(7).into_raw(), 7);
}

#[test]
fn named_values_round_trip() {
    for t in [ActivityType::Playing, ActivityType::Competing, ActivityType::HangStatus] {
        assert_eq!(ActivityType::from_raw(t.into_raw()), t);
    }
    assert_eq!(ActivityActionType::JoinRequest.into_raw(), 5);
    assert_eq!(ActivityActionType::from_raw(5), ActivityActionType::JoinRequest);
    assert_eq!(ClientStatus::from_raw(3), ClientStatus::Ready);
    assert_eq!(ClientError::from_raw(0), ClientError::NoError);
    assert_eq!(RelationshipType::from_raw(1), RelationshipType::Friend);
    assert_eq!(StatusType::from_raw(7), StatusType::UnknownStatus);
    assert_eq!(LoggingSeverity::from_raw(5), LoggingSeverity::Off);
    assert_eq!(LoggingSeverity::Verbose.into_raw(), 1);
    assert_eq!(LoggingSeverity::from_raw(0), LoggingSeverity::Unknown(0));
}

#[test]
fn non_canonical_unknown_collapses_to_named() {
    // An `Unknown` that carries a named value is not what `from_raw` produces.
    assert_eq!(ActivityType::from_raw(ActivityType::Unknown(0).into_raw()), ActivityType::Playing);
}

#[test]
fn error_kinds_from_raw() {
    assert_eq!(ErrorKind::from_raw(1), ErrorKind::Network);
    assert_eq!(ErrorKind::from_raw(2), ErrorKind::Http);
    assert_eq!(ErrorKind::from_raw(6), ErrorKind::Validation);
    assert_eq!(ErrorKind::from_raw(9), ErrorKind::Rpc);
    assert_eq!(ErrorKind::from_raw(0), ErrorKind::Other(0));
    assert_eq!(ErrorKind::from_raw(-4), ErrorKind::Other(-4));
}
