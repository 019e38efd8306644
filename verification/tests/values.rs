use discord_social_sdk::enums::{
    ActivityActionType, ActivityType, ActivityGamePlatform, ActivityGamePlatforms, ActivityPartyPrivacy,
    AdditionalContentType, AudioSystem, AuthorizationTokenType, CodeChallengeMethod,
    IntegrationType, StatusDisplayType,
};
use discord_social_sdk::{
    Activity, ActivityAssets, ActivityButton, ActivityInvite, ActivityParty, ActivitySecrets,
    ActivityTimestamps, AdditionalContent, AudioFrame, AuthorizationArgs,
    AuthorizationCode, AuthorizationCodeChallenge, ClientCreateOptions, CurrentUserInfo,
    DeviceAuthorizationArgs, LinkedLobby, Token,
};

#[test]
fn new_activity_has_no_optional_field() {
    let a = Activity::new();
    assert_eq!(a.name(), "");
    assert_eq!(a.activity_type(), ActivityType::Playing);
    assert_eq!(a.status_display_type(), None);
    assert_eq!(a.details(), None);
    assert_eq!(a.application_id(), None);
    assert!(a.assets().is_none());
    assert!(a.timestamps().is_none());
    assert!(a.secrets().is_none());
    assert_eq!(a.supported_platforms().bits(), 0);
    assert!(a.buttons().is_empty());
}


#[test]
fn activity_setters_leave_other_fields_alone() {
    let mut a = Activity::new();
    a.set_details(Some("grinding"));
    a.set_application_id(Some(42));
    a.set_parent_application_id(Some(7));
    a.set_status_display_type(Some(StatusDisplayType::Details));
    a.set_state_url(Some("https://s"));
    a.set_details_url(Some("https://d"));
    let mut platforms = ActivityGamePlatforms::empty();
    platforms.insert(ActivityGamePlatform::Android);
    a.set_supported_platforms(platforms);
    a.set_name("Game");
    assert_eq!(a.details(), Some("grinding".to_string()));
    assert_eq!(a.application_id(), Some(42));
    assert_eq!(a.parent_application_id(), Some(7));
    assert_eq!(a.status_display_type(), Some(StatusDisplayType::Details));
    assert_eq!(a.state_url(), Some("https://s".to_string()));
    assert_eq!(a.details_url(), Some("https://d".to_string()));
    assert!(a.supported_platforms().contains(ActivityGamePlatform::Android));
    a.set_application_id(None);
    assert_eq!(a.application_id(), None);
    assert_eq!(a.name(), "Game");
}

#[test]
fn nested_values_are_copied_in_and_out() {
    let mut a = Activity::new();
    let mut assets = ActivityAssets::new();
    assets.set_large_image(Some("logo"));
    assets.set_small_text(Some("hover"));
    a.set_assets(Some(&assets));
    assets.set_large_image(Some("changed"));
    let got = a.assets().unwrap();
    assert_eq!(got.large_image(), Some("logo".to_string()));
    assert_eq!(got.small_text(), Some("hover".to_string()));
    assert_eq!(got.large_text(), None);

    let mut ts = ActivityTimestamps::new();
    ts.set_start(100);
    ts.set_end(200);
    a.set_timestamps(Some(&ts));
    assert_eq!(a.timestamps().unwrap().start(), 100);
    assert_eq!(a.timestamps().unwrap().end(), 200);

    let mut secrets = ActivitySecrets::new();
    secrets.set_join("join-me");
    a.set_secrets(Some(&secrets));
    assert_eq!(a.secrets().unwrap().join(), "join-me");

    a.set_assets(None);
    assert!(a.assets().is_none());
}

#[test]
fn assets_every_field() {
    let mut x = ActivityAssets::default();
    x.set_large_text(Some("lt"));
    x.set_large_url(Some("lu"));
    x.set_small_image(Some("si"));
    x.set_small_url(Some("su"));
    x.set_invite_cover_image(Some("ic"));
    assert_eq!(x.large_text().as_deref(), Some("lt"));
    assert_eq!(x.large_url().as_deref(), Some("lu"));
    assert_eq!(x.small_image().as_deref(), Some("si"));
    assert_eq!(x.small_url().as_deref(), Some("su"));
    assert_eq!(x.invite_cover_image().as_deref(), Some("ic"));
    assert_eq!(x.large_image(), None);
}

#[test]
fn party_privacy_and_defaults() {
    let mut p = ActivityParty::default();
    assert_eq!(p.id(), "");
    assert_eq!(p.current_size(), 0);
    assert_eq!(p.privacy(), ActivityPartyPrivacy::Private);
    p.set_privacy(ActivityPartyPrivacy::Public);
    assert_eq!(p.privacy(), ActivityPartyPrivacy::Public);
}

#[test]
fn invite_fields() {
    let mut i = ActivityInvite::new();
    assert_eq!(i.invite_type(), ActivityActionType::Invalid);
    assert!(!i.is_valid());
    i.set_sender_id(1);
    i.set_channel_id(2);
    i.set_message_id(3);
    i.set_invite_type(ActivityActionType::Join);
    i.set_application_id(4);
    i.set_parent_application_id(5);
    i.set_party_id("p");
    i.set_session_id("s");
    i.set_is_valid(true);
    assert_eq!(i.sender_id(), 1);
    assert_eq!(i.channel_id(), 2);
    assert_eq!(i.message_id(), 3);
    assert_eq!(i.invite_type(), ActivityActionType::Join);
    assert_eq!(i.application_id(), 4);
    assert_eq!(i.parent_application_id(), 5);
    assert_eq!(i.party_id(), "p");
    assert_eq!(i.session_id(), "s");
    assert!(i.is_valid());
}

#[test]
fn button_builder_sets_both_fields() {
    let b = ActivityButton::with_label_and_url("Play", "https://example.com");
    assert_eq!(b.label(), "Play");
    assert_eq!(b.url(), "https://example.com");
    let mut c = ActivityButton::new();
    assert_eq!(c.label(), "");
    c.set_url("u");
    assert_eq!(c.url(), "u");
    assert_eq!(c.label(), "");
}

#[test]
fn buttons_keep_insertion_order() {
    let mut a = Activity::new();
    for (l, u) in [("a", "1"), ("b", "2"), ("c", "3")] {
        a.add_button(&ActivityButton::with_label_and_url(l, u));
    }
    let labels: Vec<String> = a.buttons().iter().map(|b| b.label()).collect();
    assert_eq!(labels, vec!["a", "b", "c"]);
}

#[test]
fn authorization_args_builders() {
    let mut challenge = AuthorizationCodeChallenge::new();
    assert_eq!(challenge.method(), CodeChallengeMethod::S256);
    challenge.set_challenge("abc");
    let args = AuthorizationArgs::new()
        .with_client_id(1234)
        .with_scopes("openid sdk.social_layer")
        .with_state(Some("st"))
        .with_nonce(Some("nn"))
        .with_code_challenge(Some(&challenge))
        .with_integration_type(Some(IntegrationType::UserInstall))
        .with_custom_scheme_param(Some("mygame"));
    assert_eq!(args.client_id(), 1234);
    assert_eq!(args.scopes(), "openid sdk.social_layer");
    assert_eq!(args.state().as_deref(), Some("st"));
    assert_eq!(args.nonce().as_deref(), Some("nn"));
    assert_eq!(args.code_challenge().unwrap().challenge(), "abc");
    assert_eq!(args.integration_type(), Some(IntegrationType::UserInstall));
    assert_eq!(args.custom_scheme_param().as_deref(), Some("mygame"));

    let cleared = args.with_state(None).with_code_challenge(None).with_integration_type(None);
    assert_eq!(cleared.state(), None);
    assert!(cleared.code_challenge().is_none());
    assert_eq!(cleared.integration_type(), None);
    assert_eq!(cleared.client_id(), 1234);
}

#[test]
fn authorization_args_defaults() {
    let args = AuthorizationArgs::default();
    assert_eq!(args.client_id(), 0);
    assert_eq!(args.scopes(), "");
    assert_eq!(args.state(), None);
    assert_eq!(args.nonce(), None);
    assert!(args.code_challenge().is_none());
    assert_eq!(args.custom_scheme_param(), None);
}

#[test]
fn device_authorization_args_builders() {
    let args = DeviceAuthorizationArgs::new().with_client_id(99).with_scopes("openid");
    assert_eq!(args.client_id(), 99);
    assert_eq!(args.scopes(), "openid");
    let d = DeviceAuthorizationArgs::default();
    assert_eq!(d.client_id(), 0);
}

#[test]
fn token_accessors() {
    let t = Token::new("acc", "ref", AuthorizationTokenType::Bearer, 3600, "openid");
    assert_eq!(t.access_token(), "acc");
    assert_eq!(t.refresh_token(), "ref");
    assert_eq!(t.token_type(), AuthorizationTokenType::Bearer);
    assert_eq!(t.expires_in(), std::time::Duration::from_secs(3600));
    assert_eq!(t.scopes(), "openid");
}

#[test]
fn token_negative_lifetime_is_zero() {
    let t = Token::new("a", "", AuthorizationTokenType::User, -5, "");
    assert_eq!(t.expires_in(), std::time::Duration::from_secs(0));
    assert_eq!(t.refresh_token(), "");
}

#[test]
fn authorization_code_accessors() {
    let c = AuthorizationCode::new("code", "http://127.0.0.1/callback");
    assert_eq!(c.code(), "code");
    assert_eq!(c.redirect_uri(), "http://127.0.0.1/callback");
    let info = CurrentUserInfo { id: 5, name: "me".to_string() };
    assert_eq!(info.clone(), info);
}

#[test]
fn audio_frame_sample_count() {
    let f = AudioFrame { samples_per_channel: 480, sample_rate: 48000, channels: 2 };
    assert_eq!(f.sample_count(), 960);
    let z = AudioFrame { samples_per_channel: 0, sample_rate: 48000, channels: 2 };
    assert_eq!(z.sample_count(), 0);
    let huge = AudioFrame { samples_per_channel: u64::MAX, sample_rate: 1, channels: 2 };
    assert_eq!(huge.sample_count(), usize::MAX);
}

#[test]
fn client_options_fields() {
    let mut o = ClientCreateOptions::new();
    assert_eq!(o.api_base(), "");
    assert_eq!(o.experimental_audio_system(), AudioSystem::Standard);
    assert_eq!(o.cpu_affinity_mask(), None);
    o.set_api_base("https://api");
    o.set_web_base("https://web");
    o.set_experimental_audio_system(AudioSystem::Game);
    o.set_experimental_android_prevent_comms_for_bluetooth(true);
    o.set_cpu_affinity_mask(Some(0b11));
    assert_eq!(o.api_base(), "https://api");
    assert_eq!(o.web_base(), "https://web");
    assert_eq!(o.experimental_audio_system(), AudioSystem::Game);
    assert!(o.experimental_android_prevent_comms_for_bluetooth());
    assert_eq!(o.cpu_affinity_mask(), Some(3));
    o.set_cpu_affinity_mask(None);
    assert_eq!(o.cpu_affinity_mask(), None);
}

#[test]
fn linked_lobby_and_additional_content() {
    let mut l = LinkedLobby::new();
    l.set_application_id(10);
    l.set_lobby_id(20);
    assert_eq!(l.application_id(), 10);
    assert_eq!(l.lobby_id(), 20);

    let mut c = AdditionalContent::new();
    assert_eq!(c.content_type(), AdditionalContentType::Other);
    c.set_content_type(AdditionalContentType::Poll);
    c.set_title(Some("Vote"));
    c.set_count(2);
    assert_eq!(c.content_type(), AdditionalContentType::Poll);
    assert_eq!(c.title().as_deref(), Some("Vote"));
    assert_eq!(c.count(), 2);
}

#[test]
fn activity_equality_is_field_by_field() {
    let mut a = Activity::new();
    a.set_name("Game");
    a.add_button(&ActivityButton::with_label_and_url("Play", "u"));
    let mut b = a.clone();
    assert!(a == b);
    b.set_state(Some(""));
    assert!(a != b);
    b.set_state(None);
    assert!(a == b);
    b.add_button(&ActivityButton::with_label_and_url("Play", "u"));
    assert!(a != b);
    let mut c = a.clone();
    let mut party = ActivityParty::new();
    party.set_max_size(4);
    c.set_party(Some(&party));
    assert!(a != c);
}

#[test]
fn additional_content_equality() {
    let mut a = AdditionalContent::new();
    let b = AdditionalContent::new();
    assert!(a == b);
    a.set_title(Some("t"));
    assert!(a != b);
}
