//! Value types, enumerations and flag sets of the Discord Social SDK bindings.
//!
//! The parameter objects the SDK takes (activities, authorization arguments,
//! client options) are plain values here: a setter copies its argument in, a
//! getter hands out an owned copy, and cloning yields an independent value.
//! Enumerations convert to and from the SDK's raw integers without losing
//! values the binding does not name.

pub mod activity;
pub mod audio;
pub mod auth;
pub mod call;
pub mod channel;
pub mod client;
pub mod enums;
pub mod error;
pub mod message;
pub mod text;

pub use activity::{
    Activity, ActivityAssets, ActivityButton, ActivityInvite, ActivityParty, ActivitySecrets,
    ActivityTimestamps,
};
pub use auth::{
    AuthorizationArgs, AuthorizationCodeChallenge, AuthorizationCodeVerifier, DeviceAuthorizationArgs,
};
pub use audio::AudioDevice;
pub use call::{CallInfo, VoiceState};
pub use channel::{Channel, GuildChannel, GuildMinimal, LinkedChannel, LinkedLobby};
pub use client::{AudioFrame, AuthorizationCode, ClientCreateOptions, CurrentUserInfo, Token};
pub use error::ErrorKind;
pub use message::AdditionalContent;
