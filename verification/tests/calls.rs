use discord_social_sdk::client::clamp_timeout_millis;
use discord_social_sdk::enums::{ActivityGamePlatform, ActivityGamePlatforms, ChannelType, CodeChallengeMethod};
use discord_social_sdk::{
    AuthorizationCodeChallenge, AuthorizationCodeVerifier, CallInfo, Channel, CurrentUserInfo,
    VoiceState,
};

#[test]
fn equal_bitmasks_are_equal_sets() {
    assert_eq!(ActivityGamePlatforms::empty(), ActivityGamePlatforms::default());
    assert_eq!(ActivityGamePlatforms::empty(), ActivityGamePlatforms::from_bits(0));
    let mut set = ActivityGamePlatforms::empty();
    set.insert(ActivityGamePlatform::Desktop);
    assert_eq!(set, ActivityGamePlatforms::from_bits(set.bits()));
    assert_ne!(set, ActivityGamePlatforms::empty());
    assert_eq!(format!("{:?}", ActivityGamePlatforms::from_bits(5)), "ActivityGamePlatforms(5)");
}

#[test]
fn voice_state_reports_both_flags() {
    let s = VoiceState::from_sdk(true, false);
    assert!(s.self_deaf());
    assert!(!s.self_mute());
}

#[test]
fn call_info_lists_participants_and_looks_up_states() {
    let info = CallInfo::from_sdk(
        77,
        88,
        vec![(1, VoiceState::from_sdk(false, true)), (2, VoiceState::from_sdk(true, true))],
    );
    assert_eq!(info.channel_id(), 77);
    assert_eq!(info.guild_id(), 88);
    assert_eq!(info.participants(), vec![1, 2]);
    let first = info.voice_state(1).expect("1 is a participant");
    assert!(!first.self_deaf());
    assert!(first.self_mute());
    assert!(info.voice_state(2).expect("2 is a participant").self_deaf());
    assert!(info.voice_state(3).is_none());
    let copy = info.clone();
    assert_eq!(copy.participants(), vec![1, 2]);
}

#[test]
fn call_info_without_participants() {
    let info = CallInfo::from_sdk(1, 0, Vec::new());
    assert!(info.participants().is_empty());
    assert!(info.voice_state(1).is_none());
}

#[test]
fn channel_from_sdk_decodes_name_and_type() {
    let c = Channel::from_sdk(9, Some("general".as_bytes()), 1, vec![5, 6]);
    assert_eq!(c.id(), 9);
    assert_eq!(c.name(), "general");
    assert_eq!(c.channel_type(), ChannelType::Dm);
    assert_eq!(c.recipients(), vec![5, 6]);
    let unnamed = Channel::from_sdk(10, None, 0, Vec::new());
    assert_eq!(unnamed.name(), "");
    assert_eq!(unnamed.channel_type(), ChannelType::GuildText);
    assert!(unnamed.clone().recipients().is_empty());
}

#[test]
fn current_user_info_clone_is_equal() {
    let u = CurrentUserInfo { id: 3, name: "n".to_string() };
    assert_eq!(u.clone(), u);
}

#[test]
fn timeout_clamp_on_given_values() {
    assert_eq!(clamp_timeout_millis(0), 0);
    assert_eq!(clamp_timeout_millis(1500), 1500);
    assert_eq!(clamp_timeout_millis(2147483647), i32::MAX);
    assert_eq!(clamp_timeout_millis(2147483648), i32::MAX);
    assert_eq!(clamp_timeout_millis(u128::MAX), i32::MAX);
}

#[test]
fn verifier_holds_challenge_and_secret() {
    let mut challenge = AuthorizationCodeChallenge::new();
    challenge.set_challenge("abc");
    let mut v = AuthorizationCodeVerifier::from_sdk(&challenge, Some(b"secret"));
    assert_eq!(v.challenge().challenge(), "abc");
    assert_eq!(v.challenge().method(), CodeChallengeMethod::S256);
    assert_eq!(v.code_verifier(), "secret");
    v.set_verifier("restored");
    assert_eq!(v.code_verifier(), "restored");
    let mut other = AuthorizationCodeChallenge::new();
    other.set_challenge("xyz");
    v.set_challenge(&other);
    assert_eq!(v.challenge().challenge(), "xyz");
    assert_eq!(v.clone().code_verifier(), "restored");
    assert_eq!(AuthorizationCodeVerifier::from_sdk(&challenge, None).code_verifier(), "");
}
