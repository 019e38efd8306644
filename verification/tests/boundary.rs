use discord_social_sdk::client::{http_timeout_millis, status_change};
use std::time::Duration;
use discord_social_sdk::enums::{AuthorizationTokenType, ChannelType, ClientError, ClientStatus};
use discord_social_sdk::text::decode_lossy;
use discord_social_sdk::{
    AudioDevice, AudioFrame, AuthorizationCode, CurrentUserInfo, GuildChannel, GuildMinimal,
    LinkedChannel, LinkedLobby, Token,
};

#[test]
fn decode_missing_or_empty_buffer_is_empty() {
    assert_eq!(decode_lossy(None), "");
    assert_eq!(decode_lossy(Some(&[])), "");
}

#[test]
fn decode_keeps_valid_text_including_nul() {
    assert_eq!(decode_lossy(Some("🎮 テスト".as_bytes())), "🎮 テスト");
    assert_eq!(decode_lossy(Some(b"a\0b")), "a\0b");
}

#[test]
fn decode_replaces_invalid_utf8() {
    assert_eq!(decode_lossy(Some(&[b'h', 0xff, b'i'])), "h\u{FFFD}i");
}

#[test]
fn status_change_reports_no_error_as_none() {
    assert_eq!(status_change(3, 0, 0), (ClientStatus::Ready, None, 0));
    assert_eq!(
        status_change(0, 2, 4004),
        (ClientStatus::Disconnected, Some(ClientError::UnexpectedClose), 4004)
    );
    assert_eq!(status_change(99, 77, -1), (ClientStatus::Unknown(99), Some(ClientError::Unknown(77)), -1));
}

#[test]
fn audio_buffer_len() {
    let f = AudioFrame { samples_per_channel: 960, sample_rate: 48000, channels: 2 };
    assert_eq!(f.buffer_len(true), 1920);
    assert_eq!(f.buffer_len(false), 0);
}

#[test]
fn guild_channel_fields() {
    let mut c = GuildChannel::new();
    assert_eq!(c.channel_type(), ChannelType::GuildText);
    assert_eq!(c.parent_id(), None);
    c.set_id(11);
    c.set_name("general");
    c.set_channel_type(ChannelType::GuildVoice);
    c.set_position(3);
    c.set_parent_id(Some(9));
    c.set_is_linkable(true);
    c.set_is_viewable_and_writeable_by_all_members(true);
    let mut lobby = LinkedLobby::new();
    lobby.set_lobby_id(77);
    c.set_linked_lobby(Some(&lobby));
    lobby.set_lobby_id(78);
    assert_eq!(c.id(), 11);
    assert_eq!(c.name(), "general");
    assert_eq!(c.channel_type(), ChannelType::GuildVoice);
    assert_eq!(c.position(), 3);
    assert_eq!(c.parent_id(), Some(9));
    assert!(c.is_linkable());
    assert!(c.is_viewable_and_writeable_by_all_members());
    assert_eq!(c.linked_lobby().unwrap().lobby_id(), 77);
    c.set_parent_id(None);
    c.set_linked_lobby(None);
    assert_eq!(c.parent_id(), None);
    assert!(c.linked_lobby().is_none());
}

#[test]
fn guild_and_linked_channel_fields() {
    let mut g = GuildMinimal::new();
    g.set_id(5);
    g.set_name("server");
    assert_eq!(g.id(), 5);
    assert_eq!(g.name(), "server");

    let mut l = LinkedChannel::new();
    l.set_id(1);
    l.set_name("chat");
    l.set_guild_id(2);
    assert_eq!(l.id(), 1);
    assert_eq!(l.name(), "chat");
    assert_eq!(l.guild_id(), 2);
}

#[test]
fn audio_device_fields() {
    let mut d = AudioDevice::new();
    assert!(!d.is_default());
    d.set_id("dev-1");
    d.set_name("Headset");
    d.set_is_default(true);
    assert_eq!(d.id(), "dev-1");
    assert_eq!(d.name(), "Headset");
    assert!(d.is_default());
    let copy = d.clone();
    assert_eq!(copy, d);
}

#[test]
fn http_timeout_is_clamped_to_i32() {
    assert_eq!(http_timeout_millis(Duration::from_millis(1500)), 1500);
    assert_eq!(http_timeout_millis(Duration::from_micros(2999)), 2);
    assert_eq!(http_timeout_millis(Duration::from_secs(10_000_000)), i32::MAX);
    assert_eq!(http_timeout_millis(Duration::ZERO), 0);
}

#[test]
fn audio_devices_compare_by_id() {
    let mut a = AudioDevice::new();
    a.set_id("x");
    a.set_name("one");
    let mut b = AudioDevice::new();
    b.set_id("x");
    b.set_name("two");
    assert_eq!(a, b);
    b.set_id("y");
    assert_ne!(a, b);
}

#[test]
fn token_from_exchange_decodes_every_field() {
    let t = Token::from_sdk(Some(b"acc"), Some(b"ref"), 1, 3600, Some(b"openid sdk.social_layer"));
    assert_eq!(t.access_token(), "acc");
    assert_eq!(t.refresh_token(), "ref");
    assert_eq!(t.token_type(), AuthorizationTokenType::Bearer);
    assert_eq!(t.expires_in(), Duration::from_secs(3600));
    assert_eq!(t.scopes(), "openid sdk.social_layer");
}

#[test]
fn token_without_refresh_token_has_an_empty_one() {
    let t = Token::from_sdk(Some(&[b'a', 0xfe]), None, 7, -5, Some(&[]));
    assert_eq!(t.access_token(), "a\u{FFFD}");
    assert_eq!(t.refresh_token(), "");
    assert_eq!(t.token_type(), AuthorizationTokenType::Unknown(7));
    assert_eq!(t.expires_in(), Duration::from_secs(0));
    assert_eq!(t.scopes(), "");
}

#[test]
fn authorization_code_and_user_from_sdk() {
    let c = AuthorizationCode::from_sdk(Some(b"code-1"), Some(b"http://127.0.0.1/callback"));
    assert_eq!(c.code(), "code-1");
    assert_eq!(c.redirect_uri(), "http://127.0.0.1/callback");
    let empty = AuthorizationCode::from_sdk(None, None);
    assert_eq!(empty.code(), "");
    assert_eq!(empty.redirect_uri(), "");
    let u = CurrentUserInfo::from_sdk(1234567890, Some("テスト".as_bytes()));
    assert_eq!(u, CurrentUserInfo { id: 1234567890, name: "テスト".to_string() });
    assert_eq!(CurrentUserInfo::from_sdk(5, None).name, "");
}
