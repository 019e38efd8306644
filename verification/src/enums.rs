//! Rust enums mirroring the SDK's C enums, and the platform flag set.
//!
//! Each enum converts from and to the raw C integer. Values the binding does not
//! know become `Unknown(raw)` instead of being rejected, so a value from a newer
//! SDK runtime survives a round trip unchanged.
//!
//! The raw values are the ones the SDK's C header, `cdiscord.h`, assigns to
//! each enumerator; `raw_value` and `of_raw` spell them out.

use vstd::prelude::*;

verus! {

/// How a user is being invited to an activity.
#[derive(Debug, Clone, Copy, PartialEq, Eq, Hash, Structural)]
#[non_exhaustive]
pub enum ActivityActionType {
    /// No action.
    Invalid,
    /// An invitation to join the sender's party.
    Join,
    /// A request to join the recipient's party.
    JoinRequest,
    /// A value this binding does not recognise.
    Unknown(i32),
}

impl ActivityActionType {
    /// The raw C value that `self` stands for.
    pub open spec fn raw_value(self) -> i32 {
        match self {
            ActivityActionType::Invalid => 0,
            ActivityActionType::Join => 1,
            ActivityActionType::JoinRequest => 5,
            ActivityActionType::Unknown(v) => v,
        }
    }

    /// The variant that the raw C value `raw` stands for.
    pub open spec fn of_raw(raw: i32) -> ActivityActionType {
        if raw == 0 {
            ActivityActionType::Invalid
        } else if raw == 1 {
            ActivityActionType::Join
        } else if raw == 5 {
            ActivityActionType::JoinRequest
        } else {
            ActivityActionType::Unknown(raw)
        }
    }

    /// Whether `self` is what [`from_raw`](Self::from_raw) gives for its own raw value:
    /// every named variant is, and so is `Unknown(v)` for a `v` that no variant names.
    pub open spec fn is_canonical(self) -> bool {
        match self {
            ActivityActionType::Unknown(v) => Self::of_raw(v) == self,
            _ => true,
        }
    }

    /// Convert from the raw C value.
    pub fn from_raw(raw: i32) -> (r: Self)
        ensures
            r == Self::of_raw(raw),
    {
        match raw {
            0 => ActivityActionType::Invalid,
            1 => ActivityActionType::Join,
            5 => ActivityActionType::JoinRequest,
            other => ActivityActionType::Unknown(other),
        }
    }

    /// Convert back to the raw C value.
    pub fn into_raw(self) -> (r: i32)
        ensures
            r == self.raw_value(),
    {
        match self {
            ActivityActionType::Invalid => 0,
            ActivityActionType::Join => 1,
            ActivityActionType::JoinRequest => 5,
            ActivityActionType::Unknown(v) => v,
        }
    }
}

/// Every raw value survives a trip through `ActivityActionType`: `from_raw` followed by
/// `into_raw` gives back the value it started from, recognised or not.
pub proof fn lemma_activity_action_type_raw_round_trip(raw: i32)
    ensures
        ActivityActionType::of_raw(raw).raw_value() == raw,
        ActivityActionType::of_raw(raw).is_canonical(),
{
}

/// Every canonical `ActivityActionType` survives a trip through its raw value: `into_raw`
/// followed by `from_raw` gives back the same variant.
pub proof fn lemma_activity_action_type_variant_round_trip(value: ActivityActionType)
    requires
        value.is_canonical(),
    ensures
        ActivityActionType::of_raw(value.raw_value()) == value,
{
}

/// Whether a party is joinable by anyone or only by invitation.
#[derive(Debug, Clone, Copy, PartialEq, Eq, Hash, Structural)]
#[non_exhaustive]
pub enum ActivityPartyPrivacy {
    /// Only invited users may join.
    Private,
    /// Anyone may join.
    Public,
    /// A value this binding does not recognise.
    Unknown(i32),
}

impl ActivityPartyPrivacy {
    /// The raw C value that `self` stands for.
    pub open spec fn raw_value(self) -> i32 {
        match self {
            ActivityPartyPrivacy::Private => 0,
            ActivityPartyPrivacy::Public => 1,
            ActivityPartyPrivacy::Unknown(v) => v,
        }
    }

    /// The variant that the raw C value `raw` stands for.
    pub open spec fn of_raw(raw: i32) -> ActivityPartyPrivacy {
        if raw == 0 {
            ActivityPartyPrivacy::Private
        } else if raw == 1 {
            ActivityPartyPrivacy::Public
        } else {
            ActivityPartyPrivacy::Unknown(raw)
        }
    }

    /// Whether `self` is what [`from_raw`](Self::from_raw) gives for its own raw value:
    /// every named variant is, and so is `Unknown(v)` for a `v` that no variant names.
    pub open spec fn is_canonical(self) -> bool {
        match self {
            ActivityPartyPrivacy::Unknown(v) => Self::of_raw(v) == self,
            _ => true,
        }
    }

    /// Convert from the raw C value.
    pub fn from_raw(raw: i32) -> (r: Self)
        ensures
            r == Self::of_raw(raw),
    {
        match raw {
            0 => ActivityPartyPrivacy::Private,
            1 => ActivityPartyPrivacy::Public,
            other => ActivityPartyPrivacy::Unknown(other),
        }
    }

    /// Convert back to the raw C value.
    pub fn into_raw(self) -> (r: i32)
        ensures
            r == self.raw_value(),
    {
        match self {
            ActivityPartyPrivacy::Private => 0,
            ActivityPartyPrivacy::Public => 1,
            ActivityPartyPrivacy::Unknown(v) => v,
        }
    }
}

/// Every raw value survives a trip through `ActivityPartyPrivacy`: `from_raw` followed by
/// `into_raw` gives back the value it started from, recognised or not.
pub proof fn lemma_activity_party_privacy_raw_round_trip(raw: i32)
    ensures
        ActivityPartyPrivacy::of_raw(raw).raw_value() == raw,
        ActivityPartyPrivacy::of_raw(raw).is_canonical(),
{
}

/// Every canonical `ActivityPartyPrivacy` survives a trip through its raw value: `into_raw`
/// followed by `from_raw` gives back the same variant.
pub proof fn lemma_activity_party_privacy_variant_round_trip(value: ActivityPartyPrivacy)
    requires
        value.is_canonical(),
    ensures
        ActivityPartyPrivacy::of_raw(value.raw_value()) == value,
{
}

/// The kind of activity a user is engaged in.
///
/// Discord rich presence supports several activity types; for the SDK the
/// only really relevant one is `Playing`. The rest
/// are provided for completeness.
///
/// See the [rich presence overview] for more information.
///
/// [rich presence overview]: https://discord.com/developers/docs/rich-presence/overview
#[derive(Debug, Clone, Copy, PartialEq, Eq, Hash, Structural)]
#[non_exhaustive]
pub enum ActivityType {
    /// The user is playing a game.
    Playing,
    /// The user is streaming.
    Streaming,
    /// The user is listening to something.
    Listening,
    /// The user is watching something.
    Watching,
    /// The activity is the user's custom status.
    CustomStatus,
    /// The user is competing.
    Competing,
    /// The activity is a hang status.
    HangStatus,
    /// A value this binding does not recognise.
    Unknown(i32),
}

impl ActivityType {
    /// The raw C value that `self` stands for.
    pub open spec fn raw_value(self) -> i32 {
        match self {
            ActivityType::Playing => 0,
            ActivityType::Streaming => 1,
            ActivityType::Listening => 2,
            ActivityType::Watching => 3,
            ActivityType::CustomStatus => 4,
            ActivityType::Competing => 5,
            ActivityType::HangStatus => 6,
            ActivityType::Unknown(v) => v,
        }
    }

    /// The variant that the raw C value `raw` stands for.
    pub open spec fn of_raw(raw: i32) -> ActivityType {
        if raw == 0 {
            ActivityType::Playing
        } else if raw == 1 {
            ActivityType::Streaming
        } else if raw == 2 {
            ActivityType::Listening
        } else if raw == 3 {
            ActivityType::Watching
        } else if raw == 4 {
            ActivityType::CustomStatus
        } else if raw == 5 {
            ActivityType::Competing
        } else if raw == 6 {
            ActivityType::HangStatus
        } else {
            ActivityType::Unknown(raw)
        }
    }

    /// Whether `self` is what [`from_raw`](Self::from_raw) gives for its own raw value:
    /// every named variant is, and so is `Unknown(v)` for a `v` that no variant names.
    pub open spec fn is_canonical(self) -> bool {
        match self {
            ActivityType::Unknown(v) => Self::of_raw(v) == self,
            _ => true,
        }
    }

    /// Convert from the raw C value.
    pub fn from_raw(raw: i32) -> (r: Self)
        ensures
            r == Self::of_raw(raw),
    {
        match raw {
            0 => ActivityType::Playing,
            1 => ActivityType::Streaming,
            2 => ActivityType::Listening,
            3 => ActivityType::Watching,
            4 => ActivityType::CustomStatus,
            5 => ActivityType::Competing,
            6 => ActivityType::HangStatus,
            other => ActivityType::Unknown(other),
        }
    }

    /// Convert back to the raw C value.
    pub fn into_raw(self) -> (r: i32)
        ensures
            r == self.raw_value(),
    {
        match self {
            ActivityType::Playing => 0,
            ActivityType::Streaming => 1,
            ActivityType::Listening => 2,
            ActivityType::Watching => 3,
            ActivityType::CustomStatus => 4,
            ActivityType::Competing => 5,
            ActivityType::HangStatus => 6,
            ActivityType::Unknown(v) => v,
        }
    }
}

/// Every raw value survives a trip through `ActivityType`: `from_raw` followed by
/// `into_raw` gives back the value it started from, recognised or not.
pub proof fn lemma_activity_type_raw_round_trip(raw: i32)
    ensures
        ActivityType::of_raw(raw).raw_value() == raw,
        ActivityType::of_raw(raw).is_canonical(),
{
}

/// Every canonical `ActivityType` survives a trip through its raw value: `into_raw`
/// followed by `from_raw` gives back the same variant.
pub proof fn lemma_activity_type_variant_round_trip(value: ActivityType)
    requires
        value.is_canonical(),
    ensures
        ActivityType::of_raw(value.raw_value()) == value,
{
}

/// Which rich presence field is shown in the user's status.
///
/// See the [rich presence overview] for more information.
///
/// [rich presence overview]: https://discord.com/developers/docs/rich-presence/overview
#[derive(Debug, Clone, Copy, PartialEq, Eq, Hash, Structural)]
#[non_exhaustive]
pub enum StatusDisplayType {
    /// Display the activity's name.
    Name,
    /// Display the activity's state.
    State,
    /// Display the activity's details.
    Details,
    /// A value this binding does not recognise.
    Unknown(i32),
}

impl StatusDisplayType {
    /// The raw C value that `self` stands for.
    pub open spec fn raw_value(self) -> i32 {
        match self {
            StatusDisplayType::Name => 0,
            StatusDisplayType::State => 1,
            StatusDisplayType::Details => 2,
            StatusDisplayType::Unknown(v) => v,
        }
    }

    /// The variant that the raw C value `raw` stands for.
    pub open spec fn of_raw(raw: i32) -> StatusDisplayType {
        if raw == 0 {
            StatusDisplayType::Name
        } else if raw == 1 {
            StatusDisplayType::State
        } else if raw == 2 {
            StatusDisplayType::Details
        } else {
            StatusDisplayType::Unknown(raw)
        }
    }

    /// Whether `self` is what [`from_raw`](Self::from_raw) gives for its own raw value:
    /// every named variant is, and so is `Unknown(v)` for a `v` that no variant names.
    pub open spec fn is_canonical(self) -> bool {
        match self {
            StatusDisplayType::Unknown(v) => Self::of_raw(v) == self,
            _ => true,
        }
    }

    /// Convert from the raw C value.
    pub fn from_raw(raw: i32) -> (r: Self)
        ensures
            r == Self::of_raw(raw),
    {
        match raw {
            0 => StatusDisplayType::Name,
            1 => StatusDisplayType::State,
            2 => StatusDisplayType::Details,
            other => StatusDisplayType::Unknown(other),
        }
    }

    /// Convert back to the raw C value.
    pub fn into_raw(self) -> (r: i32)
        ensures
            r == self.raw_value(),
    {
        match self {
            StatusDisplayType::Name => 0,
            StatusDisplayType::State => 1,
            StatusDisplayType::Details => 2,
            StatusDisplayType::Unknown(v) => v,
        }
    }
}

/// Every raw value survives a trip through `StatusDisplayType`: `from_raw` followed by
/// `into_raw` gives back the value it started from, recognised or not.
pub proof fn lemma_status_display_type_raw_round_trip(raw: i32)
    ensures
        StatusDisplayType::of_raw(raw).raw_value() == raw,
        StatusDisplayType::of_raw(raw).is_canonical(),
{
}

/// Every canonical `StatusDisplayType` survives a trip through its raw value: `into_raw`
/// followed by `from_raw` gives back the same variant.
pub proof fn lemma_status_display_type_variant_round_trip(value: StatusDisplayType)
    requires
        value.is_canonical(),
    ensures
        StatusDisplayType::of_raw(value.raw_value()) == value,
{
}

/// A platform an activity invite can be accepted on.
///
/// These are **bit flags**: the underlying values are powers of two and the
/// SDK combines them into a single integer. A raw value carrying more than
/// one platform will not match any variant here and becomes `Unknown`. Use
/// `ActivityGamePlatforms` to work with combinations.
#[derive(Debug, Clone, Copy, PartialEq, Eq, Hash, Structural)]
#[non_exhaustive]
pub enum ActivityGamePlatform {
    /// Desktop.
    Desktop,
    /// Xbox.
    Xbox,
    /// Samsung.
    Samsung,
    /// iOS.
    Ios,
    /// Android.
    Android,
    /// Embedded (an activity running inside Discord itself).
    Embedded,
    /// PlayStation 4.
    Ps4,
    /// PlayStation 5.
    Ps5,
    /// A value this binding does not recognise.
    Unknown(i32),
}

impl ActivityGamePlatform {
    /// The raw C value that `self` stands for.
    pub open spec fn raw_value(self) -> i32 {
        match self {
            ActivityGamePlatform::Desktop => 1,
            ActivityGamePlatform::Xbox => 2,
            ActivityGamePlatform::Samsung => 4,
            ActivityGamePlatform::Ios => 8,
            ActivityGamePlatform::Android => 16,
            ActivityGamePlatform::Embedded => 32,
            ActivityGamePlatform::Ps4 => 64,
            ActivityGamePlatform::Ps5 => 128,
            ActivityGamePlatform::Unknown(v) => v,
        }
    }

    /// The variant that the raw C value `raw` stands for.
    pub open spec fn of_raw(raw: i32) -> ActivityGamePlatform {
        if raw == 1 {
            ActivityGamePlatform::Desktop
        } else if raw == 2 {
            ActivityGamePlatform::Xbox
        } else if raw == 4 {
            ActivityGamePlatform::Samsung
        } else if raw == 8 {
            ActivityGamePlatform::Ios
        } else if raw == 16 {
            ActivityGamePlatform::Android
        } else if raw == 32 {
            ActivityGamePlatform::Embedded
        } else if raw == 64 {
            ActivityGamePlatform::Ps4
        } else if raw == 128 {
            ActivityGamePlatform::Ps5
        } else {
            ActivityGamePlatform::Unknown(raw)
        }
    }

    /// Whether `self` is what [`from_raw`](Self::from_raw) gives for its own raw value:
    /// every named variant is, and so is `Unknown(v)` for a `v` that no variant names.
    pub open spec fn is_canonical(self) -> bool {
        match self {
            ActivityGamePlatform::Unknown(v) => Self::of_raw(v) == self,
            _ => true,
        }
    }

    /// Convert from the raw C value.
    pub fn from_raw(raw: i32) -> (r: Self)
        ensures
            r == Self::of_raw(raw),
    {
        match raw {
            1 => ActivityGamePlatform::Desktop,
            2 => ActivityGamePlatform::Xbox,
            4 => ActivityGamePlatform::Samsung,
            8 => ActivityGamePlatform::Ios,
            16 => ActivityGamePlatform::Android,
            32 => ActivityGamePlatform::Embedded,
            64 => ActivityGamePlatform::Ps4,
            128 => ActivityGamePlatform::Ps5,
            other => ActivityGamePlatform::Unknown(other),
        }
    }

    /// Convert back to the raw C value.
    pub fn into_raw(self) -> (r: i32)
        ensures
            r == self.raw_value(),
    {
        match self {
            ActivityGamePlatform::Desktop => 1,
            ActivityGamePlatform::Xbox => 2,
            ActivityGamePlatform::Samsung => 4,
            ActivityGamePlatform::Ios => 8,
            ActivityGamePlatform::Android => 16,
            ActivityGamePlatform::Embedded => 32,
            ActivityGamePlatform::Ps4 => 64,
            ActivityGamePlatform::Ps5 => 128,
            ActivityGamePlatform::Unknown(v) => v,
        }
    }
}

/// Every raw value survives a trip through `ActivityGamePlatform`: `from_raw` followed by
/// `into_raw` gives back the value it started from, recognised or not.
pub proof fn lemma_activity_game_platform_raw_round_trip(raw: i32)
    ensures
        ActivityGamePlatform::of_raw(raw).raw_value() == raw,
        ActivityGamePlatform::of_raw(raw).is_canonical(),
{
}

/// Every canonical `ActivityGamePlatform` survives a trip through its raw value: `into_raw`
/// followed by `from_raw` gives back the same variant.
pub proof fn lemma_activity_game_platform_variant_round_trip(value: ActivityGamePlatform)
    requires
        value.is_canonical(),
    ensures
        ActivityGamePlatform::of_raw(value.raw_value()) == value,
{
}

/// The crypto method used to generate an OAuth2 code challenge.
///
/// The SDK only ever uses SHA-256.
#[derive(Debug, Clone, Copy, PartialEq, Eq, Hash, Structural)]
#[non_exhaustive]
pub enum CodeChallengeMethod {
    /// SHA-256.
    S256,
    /// A value this binding does not recognise.
    Unknown(i32),
}

impl CodeChallengeMethod {
    /// The raw C value that `self` stands for.
    pub open spec fn raw_value(self) -> i32 {
        match self {
            CodeChallengeMethod::S256 => 0,
            CodeChallengeMethod::Unknown(v) => v,
        }
    }

    /// The variant that the raw C value `raw` stands for.
    pub open spec fn of_raw(raw: i32) -> CodeChallengeMethod {
        if raw == 0 {
            CodeChallengeMethod::S256
        } else {
            CodeChallengeMethod::Unknown(raw)
        }
    }

    /// Whether `self` is what [`from_raw`](Self::from_raw) gives for its own raw value:
    /// every named variant is, and so is `Unknown(v)` for a `v` that no variant names.
    pub open spec fn is_canonical(self) -> bool {
        match self {
            CodeChallengeMethod::Unknown(v) => Self::of_raw(v) == self,
            _ => true,
        }
    }

    /// Convert from the raw C value.
    pub fn from_raw(raw: i32) -> (r: Self)
        ensures
            r == Self::of_raw(raw),
    {
        match raw {
            0 => CodeChallengeMethod::S256,
            other => CodeChallengeMethod::Unknown(other),
        }
    }

    /// Convert back to the raw C value.
    pub fn into_raw(self) -> (r: i32)
        ensures
            r == self.raw_value(),
    {
        match self {
            CodeChallengeMethod::S256 => 0,
            CodeChallengeMethod::Unknown(v) => v,
        }
    }
}

/// Every raw value survives a trip through `CodeChallengeMethod`: `from_raw` followed by
/// `into_raw` gives back the value it started from, recognised or not.
pub proof fn lemma_code_challenge_method_raw_round_trip(raw: i32)
    ensures
        CodeChallengeMethod::of_raw(raw).raw_value() == raw,
        CodeChallengeMethod::of_raw(raw).is_canonical(),
{
}

/// Every canonical `CodeChallengeMethod` survives a trip through its raw value: `into_raw`
/// followed by `from_raw` gives back the same variant.
pub proof fn lemma_code_challenge_method_variant_round_trip(value: CodeChallengeMethod)
    requires
        value.is_canonical(),
    ensures
        CodeChallengeMethod::of_raw(value.raw_value()) == value,
{
}

/// How the application is installed.
#[derive(Debug, Clone, Copy, PartialEq, Eq, Hash, Structural)]
#[non_exhaustive]
pub enum IntegrationType {
    /// Installed to a guild.
    GuildInstall,
    /// Installed to a user account.
    UserInstall,
    /// A value this binding does not recognise.
    Unknown(i32),
}

impl IntegrationType {
    /// The raw C value that `self` stands for.
    pub open spec fn raw_value(self) -> i32 {
        match self {
            IntegrationType::GuildInstall => 0,
            IntegrationType::UserInstall => 1,
            IntegrationType::Unknown(v) => v,
        }
    }

    /// The variant that the raw C value `raw` stands for.
    pub open spec fn of_raw(raw: i32) -> IntegrationType {
        if raw == 0 {
            IntegrationType::GuildInstall
        } else if raw == 1 {
            IntegrationType::UserInstall
        } else {
            IntegrationType::Unknown(raw)
        }
    }

    /// Whether `self` is what [`from_raw`](Self::from_raw) gives for its own raw value:
    /// every named variant is, and so is `Unknown(v)` for a `v` that no variant names.
    pub open spec fn is_canonical(self) -> bool {
        match self {
            IntegrationType::Unknown(v) => Self::of_raw(v) == self,
            _ => true,
        }
    }

    /// Convert from the raw C value.
    pub fn from_raw(raw: i32) -> (r: Self)
        ensures
            r == Self::of_raw(raw),
    {
        match raw {
            0 => IntegrationType::GuildInstall,
            1 => IntegrationType::UserInstall,
            other => IntegrationType::Unknown(other),
        }
    }

    /// Convert back to the raw C value.
    pub fn into_raw(self) -> (r: i32)
        ensures
            r == self.raw_value(),
    {
        match self {
            IntegrationType::GuildInstall => 0,
            IntegrationType::UserInstall => 1,
            IntegrationType::Unknown(v) => v,
        }
    }
}

/// Every raw value survives a trip through `IntegrationType`: `from_raw` followed by
/// `into_raw` gives back the value it started from, recognised or not.
pub proof fn lemma_integration_type_raw_round_trip(raw: i32)
    ensures
        IntegrationType::of_raw(raw).raw_value() == raw,
        IntegrationType::of_raw(raw).is_canonical(),
{
}

/// Every canonical `IntegrationType` survives a trip through its raw value: `into_raw`
/// followed by `from_raw` gives back the same variant.
pub proof fn lemma_integration_type_variant_round_trip(value: IntegrationType)
    requires
        value.is_canonical(),
    ensures
        IntegrationType::of_raw(value.raw_value()) == value,
{
}

/// The kind of a Discord channel.
///
/// See the [channel resource documentation] for more information.
///
/// [channel resource documentation]: https://discord.com/developers/docs/resources/channel
#[derive(Debug, Clone, Copy, PartialEq, Eq, Hash, Structural)]
#[non_exhaustive]
pub enum ChannelType {
    /// A text channel in a guild.
    GuildText,
    /// A direct message between two users.
    Dm,
    /// A voice channel in a guild.
    GuildVoice,
    /// A group direct message.
    GroupDm,
    /// A category grouping other guild channels.
    GuildCategory,
    /// A guild announcement channel.
    GuildNews,
    /// A guild store channel.
    GuildStore,
    /// A thread under an announcement channel.
    GuildNewsThread,
    /// A public thread.
    GuildPublicThread,
    /// A private thread.
    GuildPrivateThread,
    /// A guild stage voice channel.
    GuildStageVoice,
    /// A guild directory channel.
    GuildDirectory,
    /// A guild forum channel.
    GuildForum,
    /// A guild media channel.
    GuildMedia,
    /// An SDK lobby channel.
    Lobby,
    /// An ephemeral direct message.
    EphemeralDm,
    /// A value this binding does not recognise.
    Unknown(i32),
}

impl ChannelType {
    /// The raw C value that `self` stands for.
    pub open spec fn raw_value(self) -> i32 {
        match self {
            ChannelType::GuildText => 0,
            ChannelType::Dm => 1,
            ChannelType::GuildVoice => 2,
            ChannelType::GroupDm => 3,
            ChannelType::GuildCategory => 4,
            ChannelType::GuildNews => 5,
            ChannelType::GuildStore => 6,
            ChannelType::GuildNewsThread => 10,
            ChannelType::GuildPublicThread => 11,
            ChannelType::GuildPrivateThread => 12,
            ChannelType::GuildStageVoice => 13,
            ChannelType::GuildDirectory => 14,
            ChannelType::GuildForum => 15,
            ChannelType::GuildMedia => 16,
            ChannelType::Lobby => 17,
            ChannelType::EphemeralDm => 18,
            ChannelType::Unknown(v) => v,
        }
    }

    /// The variant that the raw C value `raw` stands for.
    pub open spec fn of_raw(raw: i32) -> ChannelType {
        if raw == 0 {
            ChannelType::GuildText
        } else if raw == 1 {
            ChannelType::Dm
        } else if raw == 2 {
            ChannelType::GuildVoice
        } else if raw == 3 {
            ChannelType::GroupDm
        } else if raw == 4 {
            ChannelType::GuildCategory
        } else if raw == 5 {
            ChannelType::GuildNews
        } else if raw == 6 {
            ChannelType::GuildStore
        } else if raw == 10 {
            ChannelType::GuildNewsThread
        } else if raw == 11 {
            ChannelType::GuildPublicThread
        } else if raw == 12 {
            ChannelType::GuildPrivateThread
        } else if raw == 13 {
            ChannelType::GuildStageVoice
        } else if raw == 14 {
            ChannelType::GuildDirectory
        } else if raw == 15 {
            ChannelType::GuildForum
        } else if raw == 16 {
            ChannelType::GuildMedia
        } else if raw == 17 {
            ChannelType::Lobby
        } else if raw == 18 {
            ChannelType::EphemeralDm
        } else {
            ChannelType::Unknown(raw)
        }
    }

    /// Whether `self` is what [`from_raw`](Self::from_raw) gives for its own raw value:
    /// every named variant is, and so is `Unknown(v)` for a `v` that no variant names.
    pub open spec fn is_canonical(self) -> bool {
        match self {
            ChannelType::Unknown(v) => Self::of_raw(v) == self,
            _ => true,
        }
    }

    /// Convert from the raw C value.
    pub fn from_raw(raw: i32) -> (r: Self)
        ensures
            r == Self::of_raw(raw),
    {
        match raw {
            0 => ChannelType::GuildText,
            1 => ChannelType::Dm,
            2 => ChannelType::GuildVoice,
            3 => ChannelType::GroupDm,
            4 => ChannelType::GuildCategory,
            5 => ChannelType::GuildNews,
            6 => ChannelType::GuildStore,
            10 => ChannelType::GuildNewsThread,
            11 => ChannelType::GuildPublicThread,
            12 => ChannelType::GuildPrivateThread,
            13 => ChannelType::GuildStageVoice,
            14 => ChannelType::GuildDirectory,
            15 => ChannelType::GuildForum,
            16 => ChannelType::GuildMedia,
            17 => ChannelType::Lobby,
            18 => ChannelType::EphemeralDm,
            other => ChannelType::Unknown(other),
        }
    }

    /// Convert back to the raw C value.
    pub fn into_raw(self) -> (r: i32)
        ensures
            r == self.raw_value(),
    {
        match self {
            ChannelType::GuildText => 0,
            ChannelType::Dm => 1,
            ChannelType::GuildVoice => 2,
            ChannelType::GroupDm => 3,
            ChannelType::GuildCategory => 4,
            ChannelType::GuildNews => 5,
            ChannelType::GuildStore => 6,
            ChannelType::GuildNewsThread => 10,
            ChannelType::GuildPublicThread => 11,
            ChannelType::GuildPrivateThread => 12,
            ChannelType::GuildStageVoice => 13,
            ChannelType::GuildDirectory => 14,
            ChannelType::GuildForum => 15,
            ChannelType::GuildMedia => 16,
            ChannelType::Lobby => 17,
            ChannelType::EphemeralDm => 18,
            ChannelType::Unknown(v) => v,
        }
    }
}

/// Every raw value survives a trip through `ChannelType`: `from_raw` followed by
/// `into_raw` gives back the value it started from, recognised or not.
pub proof fn lemma_channel_type_raw_round_trip(raw: i32)
    ensures
        ChannelType::of_raw(raw).raw_value() == raw,
        ChannelType::of_raw(raw).is_canonical(),
{
}

/// Every canonical `ChannelType` survives a trip through its raw value: `into_raw`
/// followed by `from_raw` gives back the same variant.
pub proof fn lemma_channel_type_variant_round_trip(value: ChannelType)
    requires
        value.is_canonical(),
    ensures
        ChannelType::of_raw(value.raw_value()) == value,
{
}

/// The kind of additional content attached to a message.
#[derive(Debug, Clone, Copy, PartialEq, Eq, Hash, Structural)]
#[non_exhaustive]
pub enum AdditionalContentType {
    /// Something other than the listed types.
    Other,
    /// A file attachment.
    Attachment,
    /// A poll.
    Poll,
    /// A voice message.
    VoiceMessage,
    /// A thread.
    Thread,
    /// An embed.
    Embed,
    /// A sticker.
    Sticker,
    /// A value this binding does not recognise.
    Unknown(i32),
}

impl AdditionalContentType {
    /// The raw C value that `self` stands for.
    pub open spec fn raw_value(self) -> i32 {
        match self {
            AdditionalContentType::Other => 0,
            AdditionalContentType::Attachment => 1,
            AdditionalContentType::Poll => 2,
            AdditionalContentType::VoiceMessage => 3,
            AdditionalContentType::Thread => 4,
            AdditionalContentType::Embed => 5,
            AdditionalContentType::Sticker => 6,
            AdditionalContentType::Unknown(v) => v,
        }
    }

    /// The variant that the raw C value `raw` stands for.
    pub open spec fn of_raw(raw: i32) -> AdditionalContentType {
        if raw == 0 {
            AdditionalContentType::Other
        } else if raw == 1 {
            AdditionalContentType::Attachment
        } else if raw == 2 {
            AdditionalContentType::Poll
        } else if raw == 3 {
            AdditionalContentType::VoiceMessage
        } else if raw == 4 {
            AdditionalContentType::Thread
        } else if raw == 5 {
            AdditionalContentType::Embed
        } else if raw == 6 {
            AdditionalContentType::Sticker
        } else {
            AdditionalContentType::Unknown(raw)
        }
    }

    /// Whether `self` is what [`from_raw`](Self::from_raw) gives for its own raw value:
    /// every named variant is, and so is `Unknown(v)` for a `v` that no variant names.
    pub open spec fn is_canonical(self) -> bool {
        match self {
            AdditionalContentType::Unknown(v) => Self::of_raw(v) == self,
            _ => true,
        }
    }

    /// Convert from the raw C value.
    pub fn from_raw(raw: i32) -> (r: Self)
        ensures
            r == Self::of_raw(raw),
    {
        match raw {
            0 => AdditionalContentType::Other,
            1 => AdditionalContentType::Attachment,
            2 => AdditionalContentType::Poll,
            3 => AdditionalContentType::VoiceMessage,
            4 => AdditionalContentType::Thread,
            5 => AdditionalContentType::Embed,
            6 => AdditionalContentType::Sticker,
            other => AdditionalContentType::Unknown(other),
        }
    }

    /// Convert back to the raw C value.
    pub fn into_raw(self) -> (r: i32)
        ensures
            r == self.raw_value(),
    {
        match self {
            AdditionalContentType::Other => 0,
            AdditionalContentType::Attachment => 1,
            AdditionalContentType::Poll => 2,
            AdditionalContentType::VoiceMessage => 3,
            AdditionalContentType::Thread => 4,
            AdditionalContentType::Embed => 5,
            AdditionalContentType::Sticker => 6,
            AdditionalContentType::Unknown(v) => v,
        }
    }
}

/// Every raw value survives a trip through `AdditionalContentType`: `from_raw` followed by
/// `into_raw` gives back the value it started from, recognised or not.
pub proof fn lemma_additional_content_type_raw_round_trip(raw: i32)
    ensures
        AdditionalContentType::of_raw(raw).raw_value() == raw,
        AdditionalContentType::of_raw(raw).is_canonical(),
{
}

/// Every canonical `AdditionalContentType` survives a trip through its raw value: `into_raw`
/// followed by `from_raw` gives back the same variant.
pub proof fn lemma_additional_content_type_variant_round_trip(value: AdditionalContentType)
    requires
        value.is_canonical(),
    ensures
        AdditionalContentType::of_raw(value.raw_value()) == value,
{
}

/// The Discord Voice audio system to use.
#[derive(Debug, Clone, Copy, PartialEq, Eq, Hash, Structural)]
#[non_exhaustive]
pub enum AudioSystem {
    /// The standard audio system.
    Standard,
    /// The game audio system.
    Game,
    /// A value this binding does not recognise.
    Unknown(i32),
}

impl AudioSystem {
    /// The raw C value that `self` stands for.
    pub open spec fn raw_value(self) -> i32 {
        match self {
            AudioSystem::Standard => 0,
            AudioSystem::Game => 1,
            AudioSystem::Unknown(v) => v,
        }
    }

    /// The variant that the raw C value `raw` stands for.
    pub open spec fn of_raw(raw: i32) -> AudioSystem {
        if raw == 0 {
            AudioSystem::Standard
        } else if raw == 1 {
            AudioSystem::Game
        } else {
            AudioSystem::Unknown(raw)
        }
    }

    /// Whether `self` is what [`from_raw`](Self::from_raw) gives for its own raw value:
    /// every named variant is, and so is `Unknown(v)` for a `v` that no variant names.
    pub open spec fn is_canonical(self) -> bool {
        match self {
            AudioSystem::Unknown(v) => Self::of_raw(v) == self,
            _ => true,
        }
    }

    /// Convert from the raw C value.
    pub fn from_raw(raw: i32) -> (r: Self)
        ensures
            r == Self::of_raw(raw),
    {
        match raw {
            0 => AudioSystem::Standard,
            1 => AudioSystem::Game,
            other => AudioSystem::Unknown(other),
        }
    }

    /// Convert back to the raw C value.
    pub fn into_raw(self) -> (r: i32)
        ensures
            r == self.raw_value(),
    {
        match self {
            AudioSystem::Standard => 0,
            AudioSystem::Game => 1,
            AudioSystem::Unknown(v) => v,
        }
    }
}

/// Every raw value survives a trip through `AudioSystem`: `from_raw` followed by
/// `into_raw` gives back the value it started from, recognised or not.
pub proof fn lemma_audio_system_raw_round_trip(raw: i32)
    ensures
        AudioSystem::of_raw(raw).raw_value() == raw,
        AudioSystem::of_raw(raw).is_canonical(),
{
}

/// Every canonical `AudioSystem` survives a trip through its raw value: `into_raw`
/// followed by `from_raw` gives back the same variant.
pub proof fn lemma_audio_system_variant_round_trip(value: AudioSystem)
    requires
        value.is_canonical(),
    ensures
        AudioSystem::of_raw(value.raw_value()) == value,
{
}

/// A network error affecting a call.
#[derive(Debug, Clone, Copy, PartialEq, Eq, Hash, Structural)]
#[non_exhaustive]
pub enum CallError {
    /// No error.
    NoError,
    /// The signaling connection could not be established.
    SignalingConnectionFailed,
    /// The signaling connection closed unexpectedly.
    SignalingUnexpectedClose,
    /// The voice connection could not be established.
    VoiceConnectionFailed,
    /// Joining the call timed out.
    JoinTimeout,
    /// The user is not permitted to join the call.
    Forbidden,
    /// A value this binding does not recognise.
    Unknown(i32),
}

impl CallError {
    /// The raw C value that `self` stands for.
    pub open spec fn raw_value(self) -> i32 {
        match self {
            CallError::NoError => 0,
            CallError::SignalingConnectionFailed => 1,
            CallError::SignalingUnexpectedClose => 2,
            CallError::VoiceConnectionFailed => 3,
            CallError::JoinTimeout => 4,
            CallError::Forbidden => 5,
            CallError::Unknown(v) => v,
        }
    }

    /// The variant that the raw C value `raw` stands for.
    pub open spec fn of_raw(raw: i32) -> CallError {
        if raw == 0 {
            CallError::NoError
        } else if raw == 1 {
            CallError::SignalingConnectionFailed
        } else if raw == 2 {
            CallError::SignalingUnexpectedClose
        } else if raw == 3 {
            CallError::VoiceConnectionFailed
        } else if raw == 4 {
            CallError::JoinTimeout
        } else if raw == 5 {
            CallError::Forbidden
        } else {
            CallError::Unknown(raw)
        }
    }

    /// Whether `self` is what [`from_raw`](Self::from_raw) gives for its own raw value:
    /// every named variant is, and so is `Unknown(v)` for a `v` that no variant names.
    pub open spec fn is_canonical(self) -> bool {
        match self {
            CallError::Unknown(v) => Self::of_raw(v) == self,
            _ => true,
        }
    }

    /// Convert from the raw C value.
    pub fn from_raw(raw: i32) -> (r: Self)
        ensures
            r == Self::of_raw(raw),
    {
        match raw {
            0 => CallError::NoError,
            1 => CallError::SignalingConnectionFailed,
            2 => CallError::SignalingUnexpectedClose,
            3 => CallError::VoiceConnectionFailed,
            4 => CallError::JoinTimeout,
            5 => CallError::Forbidden,
            other => CallError::Unknown(other),
        }
    }

    /// Convert back to the raw C value.
    pub fn into_raw(self) -> (r: i32)
        ensures
            r == self.raw_value(),
    {
        match self {
            CallError::NoError => 0,
            CallError::SignalingConnectionFailed => 1,
            CallError::SignalingUnexpectedClose => 2,
            CallError::VoiceConnectionFailed => 3,
            CallError::JoinTimeout => 4,
            CallError::Forbidden => 5,
            CallError::Unknown(v) => v,
        }
    }
}

/// Every raw value survives a trip through `CallError`: `from_raw` followed by
/// `into_raw` gives back the value it started from, recognised or not.
pub proof fn lemma_call_error_raw_round_trip(raw: i32)
    ensures
        CallError::of_raw(raw).raw_value() == raw,
        CallError::of_raw(raw).is_canonical(),
{
}

/// Every canonical `CallError` survives a trip through its raw value: `into_raw`
/// followed by `from_raw` gives back the same variant.
pub proof fn lemma_call_error_variant_round_trip(value: CallError)
    requires
        value.is_canonical(),
    ensures
        CallError::of_raw(value.raw_value()) == value,
{
}

/// Whether a voice call uses push to talk or automatic voice detection.
///
/// The variant names keep the C enum's `MODE_` prefix, which is part of the
/// member name rather than the enum prefix.
#[derive(Debug, Clone, Copy, PartialEq, Eq, Hash, Structural)]
#[non_exhaustive]
pub enum AudioModeType {
    /// The audio mode has not been initialised yet.
    ModeUninit,
    /// Voice activity detection: audio is transmitted when the user speaks.
    ModeVad,
    /// Push to talk: audio is transmitted only while the key is held.
    ModePtt,
    /// A value this binding does not recognise.
    Unknown(i32),
}

impl AudioModeType {
    /// The raw C value that `self` stands for.
    pub open spec fn raw_value(self) -> i32 {
        match self {
            AudioModeType::ModeUninit => 0,
            AudioModeType::ModeVad => 1,
            AudioModeType::ModePtt => 2,
            AudioModeType::Unknown(v) => v,
        }
    }

    /// The variant that the raw C value `raw` stands for.
    pub open spec fn of_raw(raw: i32) -> AudioModeType {
        if raw == 0 {
            AudioModeType::ModeUninit
        } else if raw == 1 {
            AudioModeType::ModeVad
        } else if raw == 2 {
            AudioModeType::ModePtt
        } else {
            AudioModeType::Unknown(raw)
        }
    }

    /// Whether `self` is what [`from_raw`](Self::from_raw) gives for its own raw value:
    /// every named variant is, and so is `Unknown(v)` for a `v` that no variant names.
    pub open spec fn is_canonical(self) -> bool {
        match self {
            AudioModeType::Unknown(v) => Self::of_raw(v) == self,
            _ => true,
        }
    }

    /// Convert from the raw C value.
    pub fn from_raw(raw: i32) -> (r: Self)
        ensures
            r == Self::of_raw(raw),
    {
        match raw {
            0 => AudioModeType::ModeUninit,
            1 => AudioModeType::ModeVad,
            2 => AudioModeType::ModePtt,
            other => AudioModeType::Unknown(other),
        }
    }

    /// Convert back to the raw C value.
    pub fn into_raw(self) -> (r: i32)
        ensures
            r == self.raw_value(),
    {
        match self {
            AudioModeType::ModeUninit => 0,
            AudioModeType::ModeVad => 1,
            AudioModeType::ModePtt => 2,
            AudioModeType::Unknown(v) => v,
        }
    }
}

/// Every raw value survives a trip through `AudioModeType`: `from_raw` followed by
/// `into_raw` gives back the value it started from, recognised or not.
pub proof fn lemma_audio_mode_type_raw_round_trip(raw: i32)
    ensures
        AudioModeType::of_raw(raw).raw_value() == raw,
        AudioModeType::of_raw(raw).is_canonical(),
{
}

/// Every canonical `AudioModeType` survives a trip through its raw value: `into_raw`
/// followed by `from_raw` gives back the same variant.
pub proof fn lemma_audio_mode_type_variant_round_trip(value: AudioModeType)
    requires
        value.is_canonical(),
    ensures
        AudioModeType::of_raw(value.raw_value()) == value,
{
}

/// The state of a call's network connection.
#[derive(Debug, Clone, Copy, PartialEq, Eq, Hash, Structural)]
#[non_exhaustive]
pub enum CallStatus {
    /// Not connected.
    Disconnected,
    /// Joining the call.
    Joining,
    /// Establishing the connection.
    Connecting,
    /// The signaling connection is established.
    SignalingConnected,
    /// Fully connected; voice is flowing.
    Connected,
    /// The connection dropped and is being re-established.
    Reconnecting,
    /// Leaving the call.
    Disconnecting,
    /// A value this binding does not recognise.
    Unknown(i32),
}

impl CallStatus {
    /// The raw C value that `self` stands for.
    pub open spec fn raw_value(self) -> i32 {
        match self {
            CallStatus::Disconnected => 0,
            CallStatus::Joining => 1,
            CallStatus::Connecting => 2,
            CallStatus::SignalingConnected => 3,
            CallStatus::Connected => 4,
            CallStatus::Reconnecting => 5,
            CallStatus::Disconnecting => 6,
            CallStatus::Unknown(v) => v,
        }
    }

    /// The variant that the raw C value `raw` stands for.
    pub open spec fn of_raw(raw: i32) -> CallStatus {
        if raw == 0 {
            CallStatus::Disconnected
        } else if raw == 1 {
            CallStatus::Joining
        } else if raw == 2 {
            CallStatus::Connecting
        } else if raw == 3 {
            CallStatus::SignalingConnected
        } else if raw == 4 {
            CallStatus::Connected
        } else if raw == 5 {
            CallStatus::Reconnecting
        } else if raw == 6 {
            CallStatus::Disconnecting
        } else {
            CallStatus::Unknown(raw)
        }
    }

    /// Whether `self` is what [`from_raw`](Self::from_raw) gives for its own raw value:
    /// every named variant is, and so is `Unknown(v)` for a `v` that no variant names.
    pub open spec fn is_canonical(self) -> bool {
        match self {
            CallStatus::Unknown(v) => Self::of_raw(v) == self,
            _ => true,
        }
    }

    /// Convert from the raw C value.
    pub fn from_raw(raw: i32) -> (r: Self)
        ensures
            r == Self::of_raw(raw),
    {
        match raw {
            0 => CallStatus::Disconnected,
            1 => CallStatus::Joining,
            2 => CallStatus::Connecting,
            3 => CallStatus::SignalingConnected,
            4 => CallStatus::Connected,
            5 => CallStatus::Reconnecting,
            6 => CallStatus::Disconnecting,
            other => CallStatus::Unknown(other),
        }
    }

    /// Convert back to the raw C value.
    pub fn into_raw(self) -> (r: i32)
        ensures
            r == self.raw_value(),
    {
        match self {
            CallStatus::Disconnected => 0,
            CallStatus::Joining => 1,
            CallStatus::Connecting => 2,
            CallStatus::SignalingConnected => 3,
            CallStatus::Connected => 4,
            CallStatus::Reconnecting => 5,
            CallStatus::Disconnecting => 6,
            CallStatus::Unknown(v) => v,
        }
    }
}

/// Every raw value survives a trip through `CallStatus`: `from_raw` followed by
/// `into_raw` gives back the value it started from, recognised or not.
pub proof fn lemma_call_status_raw_round_trip(raw: i32)
    ensures
        CallStatus::of_raw(raw).raw_value() == raw,
        CallStatus::of_raw(raw).is_canonical(),
{
}

/// Every canonical `CallStatus` survives a trip through its raw value: `into_raw`
/// followed by `from_raw` gives back the same variant.
pub proof fn lemma_call_status_variant_round_trip(value: CallStatus)
    requires
        value.is_canonical(),
    ensures
        CallStatus::of_raw(value.raw_value()) == value,
{
}

/// The relationship between two users.
#[derive(Debug, Clone, Copy, PartialEq, Eq, Hash, Structural)]
#[non_exhaustive]
pub enum RelationshipType {
    /// No relationship with the other user.
    NoRelationship,
    /// The users are friends.
    Friend,
    /// The current user has blocked the target user; actions such as sending
    /// messages between these users will not work.
    Blocked,
    /// A friend request from the target user is awaiting acceptance.
    PendingIncoming,
    /// A friend request to the target user is awaiting acceptance.
    PendingOutgoing,
    /// Documented for visibility; should be unused in the SDK.
    Implicit,
    /// Documented for visibility; should be unused in the SDK.
    Suggestion,
    /// A value this binding does not recognise.
    Unknown(i32),
}

impl RelationshipType {
    /// The raw C value that `self` stands for.
    pub open spec fn raw_value(self) -> i32 {
        match self {
            RelationshipType::NoRelationship => 0,
            RelationshipType::Friend => 1,
            RelationshipType::Blocked => 2,
            RelationshipType::PendingIncoming => 3,
            RelationshipType::PendingOutgoing => 4,
            RelationshipType::Implicit => 5,
            RelationshipType::Suggestion => 6,
            RelationshipType::Unknown(v) => v,
        }
    }

    /// The variant that the raw C value `raw` stands for.
    pub open spec fn of_raw(raw: i32) -> RelationshipType {
        if raw == 0 {
            RelationshipType::NoRelationship
        } else if raw == 1 {
            RelationshipType::Friend
        } else if raw == 2 {
            RelationshipType::Blocked
        } else if raw == 3 {
            RelationshipType::PendingIncoming
        } else if raw == 4 {
            RelationshipType::PendingOutgoing
        } else if raw == 5 {
            RelationshipType::Implicit
        } else if raw == 6 {
            RelationshipType::Suggestion
        } else {
            RelationshipType::Unknown(raw)
        }
    }

    /// Whether `self` is what [`from_raw`](Self::from_raw) gives for its own raw value:
    /// every named variant is, and so is `Unknown(v)` for a `v` that no variant names.
    pub open spec fn is_canonical(self) -> bool {
        match self {
            RelationshipType::Unknown(v) => Self::of_raw(v) == self,
            _ => true,
        }
    }

    /// Convert from the raw C value.
    pub fn from_raw(raw: i32) -> (r: Self)
        ensures
            r == Self::of_raw(raw),
    {
        match raw {
            0 => RelationshipType::NoRelationship,
            1 => RelationshipType::Friend,
            2 => RelationshipType::Blocked,
            3 => RelationshipType::PendingIncoming,
            4 => RelationshipType::PendingOutgoing,
            5 => RelationshipType::Implicit,
            6 => RelationshipType::Suggestion,
            other => RelationshipType::Unknown(other),
        }
    }

    /// Convert back to the raw C value.
    pub fn into_raw(self) -> (r: i32)
        ensures
            r == self.raw_value(),
    {
        match self {
            RelationshipType::NoRelationship => 0,
            RelationshipType::Friend => 1,
            RelationshipType::Blocked => 2,
            RelationshipType::PendingIncoming => 3,
            RelationshipType::PendingOutgoing => 4,
            RelationshipType::Implicit => 5,
            RelationshipType::Suggestion => 6,
            RelationshipType::Unknown(v) => v,
        }
    }
}

/// Every raw value survives a trip through `RelationshipType`: `from_raw` followed by
/// `into_raw` gives back the value it started from, recognised or not.
pub proof fn lemma_relationship_type_raw_round_trip(raw: i32)
    ensures
        RelationshipType::of_raw(raw).raw_value() == raw,
        RelationshipType::of_raw(raw).is_canonical(),
{
}

/// Every canonical `RelationshipType` survives a trip through its raw value: `into_raw`
/// followed by `from_raw` gives back the same variant.
pub proof fn lemma_relationship_type_variant_round_trip(value: RelationshipType)
    requires
        value.is_canonical(),
    ensures
        RelationshipType::of_raw(value.raw_value()) == value,
{
}

/// The identity provider backing an external account link.
///
/// The C enum's own `Unknown` member is spelled `UnknownProvider` here so it
/// does not collide with the catch-all `Unknown(raw)` variant the macro adds
/// for unrecognised values.
#[derive(Debug, Clone, Copy, PartialEq, Eq, Hash, Structural)]
#[non_exhaustive]
pub enum ExternalIdentityProviderType {
    /// A generic OpenID Connect provider.
    Oidc,
    /// Epic Online Services.
    EpicOnlineServices,
    /// Steam.
    Steam,
    /// Unity.
    Unity,
    /// A Discord bot.
    DiscordBot,
    /// No provider.
    NoProvider,
    /// The provider reported by the SDK as unknown.
    UnknownProvider,
    /// A value this binding does not recognise.
    Unknown(i32),
}

impl ExternalIdentityProviderType {
    /// The raw C value that `self` stands for.
    pub open spec fn raw_value(self) -> i32 {
        match self {
            ExternalIdentityProviderType::Oidc => 0,
            ExternalIdentityProviderType::EpicOnlineServices => 1,
            ExternalIdentityProviderType::Steam => 2,
            ExternalIdentityProviderType::Unity => 3,
            ExternalIdentityProviderType::DiscordBot => 4,
            ExternalIdentityProviderType::NoProvider => 5,
            ExternalIdentityProviderType::UnknownProvider => 6,
            ExternalIdentityProviderType::Unknown(v) => v,
        }
    }

    /// The variant that the raw C value `raw` stands for.
    pub open spec fn of_raw(raw: i32) -> ExternalIdentityProviderType {
        if raw == 0 {
            ExternalIdentityProviderType::Oidc
        } else if raw == 1 {
            ExternalIdentityProviderType::EpicOnlineServices
        } else if raw == 2 {
            ExternalIdentityProviderType::Steam
        } else if raw == 3 {
            ExternalIdentityProviderType::Unity
        } else if raw == 4 {
            ExternalIdentityProviderType::DiscordBot
        } else if raw == 5 {
            ExternalIdentityProviderType::NoProvider
        } else if raw == 6 {
            ExternalIdentityProviderType::UnknownProvider
        } else {
            ExternalIdentityProviderType::Unknown(raw)
        }
    }

    /// Whether `self` is what [`from_raw`](Self::from_raw) gives for its own raw value:
    /// every named variant is, and so is `Unknown(v)` for a `v` that no variant names.
    pub open spec fn is_canonical(self) -> bool {
        match self {
            ExternalIdentityProviderType::Unknown(v) => Self::of_raw(v) == self,
            _ => true,
        }
    }

    /// Convert from the raw C value.
    pub fn from_raw(raw: i32) -> (r: Self)
        ensures
            r == Self::of_raw(raw),
    {
        match raw {
            0 => ExternalIdentityProviderType::Oidc,
            1 => ExternalIdentityProviderType::EpicOnlineServices,
            2 => ExternalIdentityProviderType::Steam,
            3 => ExternalIdentityProviderType::Unity,
            4 => ExternalIdentityProviderType::DiscordBot,
            5 => ExternalIdentityProviderType::NoProvider,
            6 => ExternalIdentityProviderType::UnknownProvider,
            other => ExternalIdentityProviderType::Unknown(other),
        }
    }

    /// Convert back to the raw C value.
    pub fn into_raw(self) -> (r: i32)
        ensures
            r == self.raw_value(),
    {
        match self {
            ExternalIdentityProviderType::Oidc => 0,
            ExternalIdentityProviderType::EpicOnlineServices => 1,
            ExternalIdentityProviderType::Steam => 2,
            ExternalIdentityProviderType::Unity => 3,
            ExternalIdentityProviderType::DiscordBot => 4,
            ExternalIdentityProviderType::NoProvider => 5,
            ExternalIdentityProviderType::UnknownProvider => 6,
            ExternalIdentityProviderType::Unknown(v) => v,
        }
    }
}

/// Every raw value survives a trip through `ExternalIdentityProviderType`: `from_raw` followed by
/// `into_raw` gives back the value it started from, recognised or not.
pub proof fn lemma_external_identity_provider_type_raw_round_trip(raw: i32)
    ensures
        ExternalIdentityProviderType::of_raw(raw).raw_value() == raw,
        ExternalIdentityProviderType::of_raw(raw).is_canonical(),
{
}

/// Every canonical `ExternalIdentityProviderType` survives a trip through its raw value: `into_raw`
/// followed by `from_raw` gives back the same variant.
pub proof fn lemma_external_identity_provider_type_variant_round_trip(value: ExternalIdentityProviderType)
    requires
        value.is_canonical(),
    ensures
        ExternalIdentityProviderType::of_raw(value.raw_value()) == value,
{
}

/// The image format to request when building a user's avatar URL.
#[derive(Debug, Clone, Copy, PartialEq, Eq, Hash, Structural)]
#[non_exhaustive]
pub enum AvatarType {
    /// GIF.
    Gif,
    /// WebP.
    Webp,
    /// PNG.
    Png,
    /// JPEG.
    Jpeg,
    /// A value this binding does not recognise.
    Unknown(i32),
}

impl AvatarType {
    /// The raw C value that `self` stands for.
    pub open spec fn raw_value(self) -> i32 {
        match self {
            AvatarType::Gif => 0,
            AvatarType::Webp => 1,
            AvatarType::Png => 2,
            AvatarType::Jpeg => 3,
            AvatarType::Unknown(v) => v,
        }
    }

    /// The variant that the raw C value `raw` stands for.
    pub open spec fn of_raw(raw: i32) -> AvatarType {
        if raw == 0 {
            AvatarType::Gif
        } else if raw == 1 {
            AvatarType::Webp
        } else if raw == 2 {
            AvatarType::Png
        } else if raw == 3 {
            AvatarType::Jpeg
        } else {
            AvatarType::Unknown(raw)
        }
    }

    /// Whether `self` is what [`from_raw`](Self::from_raw) gives for its own raw value:
    /// every named variant is, and so is `Unknown(v)` for a `v` that no variant names.
    pub open spec fn is_canonical(self) -> bool {
        match self {
            AvatarType::Unknown(v) => Self::of_raw(v) == self,
            _ => true,
        }
    }

    /// Convert from the raw C value.
    pub fn from_raw(raw: i32) -> (r: Self)
        ensures
            r == Self::of_raw(raw),
    {
        match raw {
            0 => AvatarType::Gif,
            1 => AvatarType::Webp,
            2 => AvatarType::Png,
            3 => AvatarType::Jpeg,
            other => AvatarType::Unknown(other),
        }
    }

    /// Convert back to the raw C value.
    pub fn into_raw(self) -> (r: i32)
        ensures
            r == self.raw_value(),
    {
        match self {
            AvatarType::Gif => 0,
            AvatarType::Webp => 1,
            AvatarType::Png => 2,
            AvatarType::Jpeg => 3,
            AvatarType::Unknown(v) => v,
        }
    }
}

/// Every raw value survives a trip through `AvatarType`: `from_raw` followed by
/// `into_raw` gives back the value it started from, recognised or not.
pub proof fn lemma_avatar_type_raw_round_trip(raw: i32)
    ensures
        AvatarType::of_raw(raw).raw_value() == raw,
        AvatarType::of_raw(raw).is_canonical(),
{
}

/// Every canonical `AvatarType` survives a trip through its raw value: `into_raw`
/// followed by `from_raw` gives back the same variant.
pub proof fn lemma_avatar_type_variant_round_trip(value: AvatarType)
    requires
        value.is_canonical(),
    ensures
        AvatarType::of_raw(value.raw_value()) == value,
{
}

/// A user's online status.
///
/// Beyond plain online and offline, Discord lets users customise their
/// status — for example "do not disturb" to silence notifications.
///
/// The C enum's own `Unknown` member is spelled `UnknownStatus` here so it
/// does not collide with the catch-all `Unknown(raw)` variant the macro adds
/// for unrecognised values.
#[derive(Debug, Clone, Copy, PartialEq, Eq, Hash, Structural)]
#[non_exhaustive]
pub enum StatusType {
    /// Online and recently active.
    Online,
    /// Offline and not connected to Discord.
    Offline,
    /// Blocked.
    Blocked,
    /// Online but inactive for a while, possibly away from the computer.
    Idle,
    /// Online but suppressing notifications.
    Dnd,
    /// Online but appearing offline to other users.
    Invisible,
    /// Online and actively streaming content.
    Streaming,
    /// The status reported by the SDK as unknown.
    UnknownStatus,
    /// A value this binding does not recognise.
    Unknown(i32),
}

impl StatusType {
    /// The raw C value that `self` stands for.
    pub open spec fn raw_value(self) -> i32 {
        match self {
            StatusType::Online => 0,
            StatusType::Offline => 1,
            StatusType::Blocked => 2,
            StatusType::Idle => 3,
            StatusType::Dnd => 4,
            StatusType::Invisible => 5,
            StatusType::Streaming => 6,
            StatusType::UnknownStatus => 7,
            StatusType::Unknown(v) => v,
        }
    }

    /// The variant that the raw C value `raw` stands for.
    pub open spec fn of_raw(raw: i32) -> StatusType {
        if raw == 0 {
            StatusType::Online
        } else if raw == 1 {
            StatusType::Offline
        } else if raw == 2 {
            StatusType::Blocked
        } else if raw == 3 {
            StatusType::Idle
        } else if raw == 4 {
            StatusType::Dnd
        } else if raw == 5 {
            StatusType::Invisible
        } else if raw == 6 {
            StatusType::Streaming
        } else if raw == 7 {
            StatusType::UnknownStatus
        } else {
            StatusType::Unknown(raw)
        }
    }

    /// Whether `self` is what [`from_raw`](Self::from_raw) gives for its own raw value:
    /// every named variant is, and so is `Unknown(v)` for a `v` that no variant names.
    pub open spec fn is_canonical(self) -> bool {
        match self {
            StatusType::Unknown(v) => Self::of_raw(v) == self,
            _ => true,
        }
    }

    /// Convert from the raw C value.
    pub fn from_raw(raw: i32) -> (r: Self)
        ensures
            r == Self::of_raw(raw),
    {
        match raw {
            0 => StatusType::Online,
            1 => StatusType::Offline,
            2 => StatusType::Blocked,
            3 => StatusType::Idle,
            4 => StatusType::Dnd,
            5 => StatusType::Invisible,
            6 => StatusType::Streaming,
            7 => StatusType::UnknownStatus,
            other => StatusType::Unknown(other),
        }
    }

    /// Convert back to the raw C value.
    pub fn into_raw(self) -> (r: i32)
        ensures
            r == self.raw_value(),
    {
        match self {
            StatusType::Online => 0,
            StatusType::Offline => 1,
            StatusType::Blocked => 2,
            StatusType::Idle => 3,
            StatusType::Dnd => 4,
            StatusType::Invisible => 5,
            StatusType::Streaming => 6,
            StatusType::UnknownStatus => 7,
            StatusType::Unknown(v) => v,
        }
    }
}

/// Every raw value survives a trip through `StatusType`: `from_raw` followed by
/// `into_raw` gives back the value it started from, recognised or not.
pub proof fn lemma_status_type_raw_round_trip(raw: i32)
    ensures
        StatusType::of_raw(raw).raw_value() == raw,
        StatusType::of_raw(raw).is_canonical(),
{
}

/// Every canonical `StatusType` survives a trip through its raw value: `into_raw`
/// followed by `from_raw` gives back the same variant.
pub proof fn lemma_status_type_variant_round_trip(value: StatusType)
    requires
        value.is_canonical(),
    ensures
        StatusType::of_raw(value.raw_value()) == value,
{
}

/// An informational disclosure Discord may make to a user.
///
/// The game can identify these and customise how they are rendered.
#[derive(Debug, Clone, Copy, PartialEq, Eq, Hash, Structural)]
#[non_exhaustive]
pub enum DisclosureType {
    /// Shown the first time a user sends a message in game, so the user knows
    /// that message will also be viewable on Discord.
    MessageDataVisibleOnDiscord,
    /// A value this binding does not recognise.
    Unknown(i32),
}

impl DisclosureType {
    /// The raw C value that `self` stands for.
    pub open spec fn raw_value(self) -> i32 {
        match self {
            DisclosureType::MessageDataVisibleOnDiscord => 3,
            DisclosureType::Unknown(v) => v,
        }
    }

    /// The variant that the raw C value `raw` stands for.
    pub open spec fn of_raw(raw: i32) -> DisclosureType {
        if raw == 3 {
            DisclosureType::MessageDataVisibleOnDiscord
        } else {
            DisclosureType::Unknown(raw)
        }
    }

    /// Whether `self` is what [`from_raw`](Self::from_raw) gives for its own raw value:
    /// every named variant is, and so is `Unknown(v)` for a `v` that no variant names.
    pub open spec fn is_canonical(self) -> bool {
        match self {
            DisclosureType::Unknown(v) => Self::of_raw(v) == self,
            _ => true,
        }
    }

    /// Convert from the raw C value.
    pub fn from_raw(raw: i32) -> (r: Self)
        ensures
            r == Self::of_raw(raw),
    {
        match raw {
            3 => DisclosureType::MessageDataVisibleOnDiscord,
            other => DisclosureType::Unknown(other),
        }
    }

    /// Convert back to the raw C value.
    pub fn into_raw(self) -> (r: i32)
        ensures
            r == self.raw_value(),
    {
        match self {
            DisclosureType::MessageDataVisibleOnDiscord => 3,
            DisclosureType::Unknown(v) => v,
        }
    }
}

/// Every raw value survives a trip through `DisclosureType`: `from_raw` followed by
/// `into_raw` gives back the value it started from, recognised or not.
pub proof fn lemma_disclosure_type_raw_round_trip(raw: i32)
    ensures
        DisclosureType::of_raw(raw).raw_value() == raw,
        DisclosureType::of_raw(raw).is_canonical(),
{
}

/// Every canonical `DisclosureType` survives a trip through its raw value: `into_raw`
/// followed by `from_raw` gives back the same variant.
pub proof fn lemma_disclosure_type_variant_round_trip(value: DisclosureType)
    requires
        value.is_canonical(),
    ensures
        DisclosureType::of_raw(value.raw_value()) == value,
{
}

/// An error on the socket connection the SDK maintains with Discord.
///
/// Generic network failures report `ConnectionFailed`
/// or `ConnectionCanceled`. Other errors —
/// an invalid or expired auth token, for instance — report
/// `UnexpectedClose`, with the specifics in
/// the accompanying error details.
#[derive(Debug, Clone, Copy, PartialEq, Eq, Hash, Structural)]
#[non_exhaustive]
pub enum ClientError {
    /// No error.
    NoError,
    /// The connection could not be established.
    ConnectionFailed,
    /// The connection closed unexpectedly.
    UnexpectedClose,
    /// The connection attempt was canceled.
    ConnectionCanceled,
    /// A value this binding does not recognise.
    Unknown(i32),
}

impl ClientError {
    /// The raw C value that `self` stands for.
    pub open spec fn raw_value(self) -> i32 {
        match self {
            ClientError::NoError => 0,
            ClientError::ConnectionFailed => 1,
            ClientError::UnexpectedClose => 2,
            ClientError::ConnectionCanceled => 3,
            ClientError::Unknown(v) => v,
        }
    }

    /// The variant that the raw C value `raw` stands for.
    pub open spec fn of_raw(raw: i32) -> ClientError {
        if raw == 0 {
            ClientError::NoError
        } else if raw == 1 {
            ClientError::ConnectionFailed
        } else if raw == 2 {
            ClientError::UnexpectedClose
        } else if raw == 3 {
            ClientError::ConnectionCanceled
        } else {
            ClientError::Unknown(raw)
        }
    }

    /// Whether `self` is what [`from_raw`](Self::from_raw) gives for its own raw value:
    /// every named variant is, and so is `Unknown(v)` for a `v` that no variant names.
    pub open spec fn is_canonical(self) -> bool {
        match self {
            ClientError::Unknown(v) => Self::of_raw(v) == self,
            _ => true,
        }
    }

    /// Convert from the raw C value.
    pub fn from_raw(raw: i32) -> (r: Self)
        ensures
            r == Self::of_raw(raw),
    {
        match raw {
            0 => ClientError::NoError,
            1 => ClientError::ConnectionFailed,
            2 => ClientError::UnexpectedClose,
            3 => ClientError::ConnectionCanceled,
            other => ClientError::Unknown(other),
        }
    }

    /// Convert back to the raw C value.
    pub fn into_raw(self) -> (r: i32)
        ensures
            r == self.raw_value(),
    {
        match self {
            ClientError::NoError => 0,
            ClientError::ConnectionFailed => 1,
            ClientError::UnexpectedClose => 2,
            ClientError::ConnectionCanceled => 3,
            ClientError::Unknown(v) => v,
        }
    }
}

/// Every raw value survives a trip through `ClientError`: `from_raw` followed by
/// `into_raw` gives back the value it started from, recognised or not.
pub proof fn lemma_client_error_raw_round_trip(raw: i32)
    ensures
        ClientError::of_raw(raw).raw_value() == raw,
        ClientError::of_raw(raw).is_canonical(),
{
}

/// Every canonical `ClientError` survives a trip through its raw value: `into_raw`
/// followed by `from_raw` gives back the same variant.
pub proof fn lemma_client_error_variant_round_trip(value: ClientError)
    requires
        value.is_canonical(),
    ensures
        ClientError::of_raw(value.raw_value()) == value,
{
}

/// The status of the SDK's internal websocket connection to Discord.
///
/// Launching the client has roughly two phases:
///
/// 1. The socket connects to Discord and exchanges an auth token —
///    `Connecting` and
///    `Connected`.
/// 2. The socket receives an initial payload describing the current user,
///    their lobbies, their friends and so on — `Ready`.
///
/// Many client functions do not work until the status reaches `Ready`, so
/// that is the one to wait for.
///
/// The socket may also drop, for example on a temporary network blip; it
/// reconnects automatically, reporting
/// `Reconnecting` meanwhile.
#[derive(Debug, Clone, Copy, PartialEq, Eq, Hash, Structural)]
#[non_exhaustive]
pub enum ClientStatus {
    /// Not connected.
    Disconnected,
    /// Establishing the socket connection.
    Connecting,
    /// The socket is connected and the auth token has been exchanged.
    Connected,
    /// The initial payload has arrived; the client is fully usable.
    Ready,
    /// The connection dropped and is being re-established.
    Reconnecting,
    /// Tearing the connection down.
    Disconnecting,
    /// Waiting on an HTTP request before continuing.
    HttpWait,
    /// A value this binding does not recognise.
    Unknown(i32),
}

impl ClientStatus {
    /// The raw C value that `self` stands for.
    pub open spec fn raw_value(self) -> i32 {
        match self {
            ClientStatus::Disconnected => 0,
            ClientStatus::Connecting => 1,
            ClientStatus::Connected => 2,
            ClientStatus::Ready => 3,
            ClientStatus::Reconnecting => 4,
            ClientStatus::Disconnecting => 5,
            ClientStatus::HttpWait => 6,
            ClientStatus::Unknown(v) => v,
        }
    }

    /// The variant that the raw C value `raw` stands for.
    pub open spec fn of_raw(raw: i32) -> ClientStatus {
        if raw == 0 {
            ClientStatus::Disconnected
        } else if raw == 1 {
            ClientStatus::Connecting
        } else if raw == 2 {
            ClientStatus::Connected
        } else if raw == 3 {
            ClientStatus::Ready
        } else if raw == 4 {
            ClientStatus::Reconnecting
        } else if raw == 5 {
            ClientStatus::Disconnecting
        } else if raw == 6 {
            ClientStatus::HttpWait
        } else {
            ClientStatus::Unknown(raw)
        }
    }

    /// Whether `self` is what [`from_raw`](Self::from_raw) gives for its own raw value:
    /// every named variant is, and so is `Unknown(v)` for a `v` that no variant names.
    pub open spec fn is_canonical(self) -> bool {
        match self {
            ClientStatus::Unknown(v) => Self::of_raw(v) == self,
            _ => true,
        }
    }

    /// Convert from the raw C value.
    pub fn from_raw(raw: i32) -> (r: Self)
        ensures
            r == Self::of_raw(raw),
    {
        match raw {
            0 => ClientStatus::Disconnected,
            1 => ClientStatus::Connecting,
            2 => ClientStatus::Connected,
            3 => ClientStatus::Ready,
            4 => ClientStatus::Reconnecting,
            5 => ClientStatus::Disconnecting,
            6 => ClientStatus::HttpWait,
            other => ClientStatus::Unknown(other),
        }
    }

    /// Convert back to the raw C value.
    pub fn into_raw(self) -> (r: i32)
        ensures
            r == self.raw_value(),
    {
        match self {
            ClientStatus::Disconnected => 0,
            ClientStatus::Connecting => 1,
            ClientStatus::Connected => 2,
            ClientStatus::Ready => 3,
            ClientStatus::Reconnecting => 4,
            ClientStatus::Disconnecting => 5,
            ClientStatus::HttpWait => 6,
            ClientStatus::Unknown(v) => v,
        }
    }
}

/// Every raw value survives a trip through `ClientStatus`: `from_raw` followed by
/// `into_raw` gives back the value it started from, recognised or not.
pub proof fn lemma_client_status_raw_round_trip(raw: i32)
    ensures
        ClientStatus::of_raw(raw).raw_value() == raw,
        ClientStatus::of_raw(raw).is_canonical(),
{
}

/// Every canonical `ClientStatus` survives a trip through its raw value: `into_raw`
/// followed by `from_raw` gives back the same variant.
pub proof fn lemma_client_status_variant_round_trip(value: ClientStatus)
    requires
        value.is_canonical(),
    ensures
        ClientStatus::of_raw(value.raw_value()) == value,
{
}

/// An SDK thread whose priority can be controlled.
#[derive(Debug, Clone, Copy, PartialEq, Eq, Hash, Structural)]
#[non_exhaustive]
pub enum ClientThread {
    /// The main client thread.
    Client,
    /// The voice thread.
    Voice,
    /// The network thread.
    Network,
    /// A value this binding does not recognise.
    Unknown(i32),
}

impl ClientThread {
    /// The raw C value that `self` stands for.
    pub open spec fn raw_value(self) -> i32 {
        match self {
            ClientThread::Client => 0,
            ClientThread::Voice => 1,
            ClientThread::Network => 2,
            ClientThread::Unknown(v) => v,
        }
    }

    /// The variant that the raw C value `raw` stands for.
    pub open spec fn of_raw(raw: i32) -> ClientThread {
        if raw == 0 {
            ClientThread::Client
        } else if raw == 1 {
            ClientThread::Voice
        } else if raw == 2 {
            ClientThread::Network
        } else {
            ClientThread::Unknown(raw)
        }
    }

    /// Whether `self` is what [`from_raw`](Self::from_raw) gives for its own raw value:
    /// every named variant is, and so is `Unknown(v)` for a `v` that no variant names.
    pub open spec fn is_canonical(self) -> bool {
        match self {
            ClientThread::Unknown(v) => Self::of_raw(v) == self,
            _ => true,
        }
    }

    /// Convert from the raw C value.
    pub fn from_raw(raw: i32) -> (r: Self)
        ensures
            r == Self::of_raw(raw),
    {
        match raw {
            0 => ClientThread::Client,
            1 => ClientThread::Voice,
            2 => ClientThread::Network,
            other => ClientThread::Unknown(other),
        }
    }

    /// Convert back to the raw C value.
    pub fn into_raw(self) -> (r: i32)
        ensures
            r == self.raw_value(),
    {
        match self {
            ClientThread::Client => 0,
            ClientThread::Voice => 1,
            ClientThread::Network => 2,
            ClientThread::Unknown(v) => v,
        }
    }
}

/// Every raw value survives a trip through `ClientThread`: `from_raw` followed by
/// `into_raw` gives back the value it started from, recognised or not.
pub proof fn lemma_client_thread_raw_round_trip(raw: i32)
    ensures
        ClientThread::of_raw(raw).raw_value() == raw,
        ClientThread::of_raw(raw).is_canonical(),
{
}

/// Every canonical `ClientThread` survives a trip through its raw value: `into_raw`
/// followed by `from_raw` gives back the same variant.
pub proof fn lemma_client_thread_variant_round_trip(value: ClientThread)
    requires
        value.is_canonical(),
    ensures
        ClientThread::of_raw(value.raw_value()) == value,
{
}

/// The kind of auth token supplied to the SDK.
///
/// Either the normal token produced by the Discord desktop app or an OAuth2
/// bearer token. Only the latter can be used by the SDK.
#[derive(Debug, Clone, Copy, PartialEq, Eq, Hash, Structural)]
#[non_exhaustive]
pub enum AuthorizationTokenType {
    /// A Discord desktop app user token.
    User,
    /// An OAuth2 bearer token.
    Bearer,
    /// A value this binding does not recognise.
    Unknown(i32),
}

impl AuthorizationTokenType {
    /// The raw C value that `self` stands for.
    pub open spec fn raw_value(self) -> i32 {
        match self {
            AuthorizationTokenType::User => 0,
            AuthorizationTokenType::Bearer => 1,
            AuthorizationTokenType::Unknown(v) => v,
        }
    }

    /// The variant that the raw C value `raw` stands for.
    pub open spec fn of_raw(raw: i32) -> AuthorizationTokenType {
        if raw == 0 {
            AuthorizationTokenType::User
        } else if raw == 1 {
            AuthorizationTokenType::Bearer
        } else {
            AuthorizationTokenType::Unknown(raw)
        }
    }

    /// Whether `self` is what [`from_raw`](Self::from_raw) gives for its own raw value:
    /// every named variant is, and so is `Unknown(v)` for a `v` that no variant names.
    pub open spec fn is_canonical(self) -> bool {
        match self {
            AuthorizationTokenType::Unknown(v) => Self::of_raw(v) == self,
            _ => true,
        }
    }

    /// Convert from the raw C value.
    pub fn from_raw(raw: i32) -> (r: Self)
        ensures
            r == Self::of_raw(raw),
    {
        match raw {
            0 => AuthorizationTokenType::User,
            1 => AuthorizationTokenType::Bearer,
            other => AuthorizationTokenType::Unknown(other),
        }
    }

    /// Convert back to the raw C value.
    pub fn into_raw(self) -> (r: i32)
        ensures
            r == self.raw_value(),
    {
        match self {
            AuthorizationTokenType::User => 0,
            AuthorizationTokenType::Bearer => 1,
            AuthorizationTokenType::Unknown(v) => v,
        }
    }
}

/// Every raw value survives a trip through `AuthorizationTokenType`: `from_raw` followed by
/// `into_raw` gives back the value it started from, recognised or not.
pub proof fn lemma_authorization_token_type_raw_round_trip(raw: i32)
    ensures
        AuthorizationTokenType::of_raw(raw).raw_value() == raw,
        AuthorizationTokenType::of_raw(raw).is_canonical(),
{
}

/// Every canonical `AuthorizationTokenType` survives a trip through its raw value: `into_raw`
/// followed by `from_raw` gives back the same variant.
pub proof fn lemma_authorization_token_type_variant_round_trip(value: AuthorizationTokenType)
    requires
        value.is_canonical(),
    ensures
        AuthorizationTokenType::of_raw(value.raw_value()) == value,
{
}

/// An identity provider usable to authenticate a provisional account for a
/// public client.
#[derive(Debug, Clone, Copy, PartialEq, Eq, Hash, Structural)]
#[non_exhaustive]
pub enum ExternalAuthType {
    /// A generic OpenID Connect token.
    Oidc,
    /// An Epic Online Services access token.
    EpicOnlineServicesAccessToken,
    /// An Epic Online Services ID token.
    EpicOnlineServicesIdToken,
    /// A Steam session ticket.
    SteamSessionTicket,
    /// A Unity Services ID token.
    UnityServicesIdToken,
    /// An access token issued by a Discord bot.
    DiscordBotIssuedAccessToken,
    /// An Apple ID token.
    AppleIdToken,
    /// A PlayStation Network ID token.
    PlayStationNetworkIdToken,
    /// A value this binding does not recognise.
    Unknown(i32),
}

impl ExternalAuthType {
    /// The raw C value that `self` stands for.
    pub open spec fn raw_value(self) -> i32 {
        match self {
            ExternalAuthType::Oidc => 0,
            ExternalAuthType::EpicOnlineServicesAccessToken => 1,
            ExternalAuthType::EpicOnlineServicesIdToken => 2,
            ExternalAuthType::SteamSessionTicket => 3,
            ExternalAuthType::UnityServicesIdToken => 4,
            ExternalAuthType::DiscordBotIssuedAccessToken => 5,
            ExternalAuthType::AppleIdToken => 6,
            ExternalAuthType::PlayStationNetworkIdToken => 7,
            ExternalAuthType::Unknown(v) => v,
        }
    }

    /// The variant that the raw C value `raw` stands for.
    pub open spec fn of_raw(raw: i32) -> ExternalAuthType {
        if raw == 0 {
            ExternalAuthType::Oidc
        } else if raw == 1 {
            ExternalAuthType::EpicOnlineServicesAccessToken
        } else if raw == 2 {
            ExternalAuthType::EpicOnlineServicesIdToken
        } else if raw == 3 {
            ExternalAuthType::SteamSessionTicket
        } else if raw == 4 {
            ExternalAuthType::UnityServicesIdToken
        } else if raw == 5 {
            ExternalAuthType::DiscordBotIssuedAccessToken
        } else if raw == 6 {
            ExternalAuthType::AppleIdToken
        } else if raw == 7 {
            ExternalAuthType::PlayStationNetworkIdToken
        } else {
            ExternalAuthType::Unknown(raw)
        }
    }

    /// Whether `self` is what [`from_raw`](Self::from_raw) gives for its own raw value:
    /// every named variant is, and so is `Unknown(v)` for a `v` that no variant names.
    pub open spec fn is_canonical(self) -> bool {
        match self {
            ExternalAuthType::Unknown(v) => Self::of_raw(v) == self,
            _ => true,
        }
    }

    /// Convert from the raw C value.
    pub fn from_raw(raw: i32) -> (r: Self)
        ensures
            r == Self::of_raw(raw),
    {
        match raw {
            0 => ExternalAuthType::Oidc,
            1 => ExternalAuthType::EpicOnlineServicesAccessToken,
            2 => ExternalAuthType::EpicOnlineServicesIdToken,
            3 => ExternalAuthType::SteamSessionTicket,
            4 => ExternalAuthType::UnityServicesIdToken,
            5 => ExternalAuthType::DiscordBotIssuedAccessToken,
            6 => ExternalAuthType::AppleIdToken,
            7 => ExternalAuthType::PlayStationNetworkIdToken,
            other => ExternalAuthType::Unknown(other),
        }
    }

    /// Convert back to the raw C value.
    pub fn into_raw(self) -> (r: i32)
        ensures
            r == self.raw_value(),
    {
        match self {
            ExternalAuthType::Oidc => 0,
            ExternalAuthType::EpicOnlineServicesAccessToken => 1,
            ExternalAuthType::EpicOnlineServicesIdToken => 2,
            ExternalAuthType::SteamSessionTicket => 3,
            ExternalAuthType::UnityServicesIdToken => 4,
            ExternalAuthType::DiscordBotIssuedAccessToken => 5,
            ExternalAuthType::AppleIdToken => 6,
            ExternalAuthType::PlayStationNetworkIdToken => 7,
            ExternalAuthType::Unknown(v) => v,
        }
    }
}

/// Every raw value survives a trip through `ExternalAuthType`: `from_raw` followed by
/// `into_raw` gives back the value it started from, recognised or not.
pub proof fn lemma_external_auth_type_raw_round_trip(raw: i32)
    ensures
        ExternalAuthType::of_raw(raw).raw_value() == raw,
        ExternalAuthType::of_raw(raw).is_canonical(),
{
}

/// Every canonical `ExternalAuthType` survives a trip through its raw value: `into_raw`
/// followed by `from_raw` gives back the same variant.
pub proof fn lemma_external_auth_type_variant_round_trip(value: ExternalAuthType)
    requires
        value.is_canonical(),
    ensures
        ExternalAuthType::of_raw(value.raw_value()) == value,
{
}

/// A log level supported by the SDK.
#[derive(Debug, Clone, Copy, PartialEq, Eq, Hash, Structural)]
#[non_exhaustive]
pub enum LoggingSeverity {
    /// Verbose diagnostic output.
    Verbose,
    /// Informational messages.
    Info,
    /// Warnings.
    Warning,
    /// Errors.
    Error,
    /// Logging disabled.
    Off,
    /// A value this binding does not recognise.
    Unknown(i32),
}

impl LoggingSeverity {
    /// The raw C value that `self` stands for.
    pub open spec fn raw_value(self) -> i32 {
        match self {
            LoggingSeverity::Verbose => 1,
            LoggingSeverity::Info => 2,
            LoggingSeverity::Warning => 3,
            LoggingSeverity::Error => 4,
            LoggingSeverity::Off => 5,
            LoggingSeverity::Unknown(v) => v,
        }
    }

    /// The variant that the raw C value `raw` stands for.
    pub open spec fn of_raw(raw: i32) -> LoggingSeverity {
        if raw == 1 {
            LoggingSeverity::Verbose
        } else if raw == 2 {
            LoggingSeverity::Info
        } else if raw == 3 {
            LoggingSeverity::Warning
        } else if raw == 4 {
            LoggingSeverity::Error
        } else if raw == 5 {
            LoggingSeverity::Off
        } else {
            LoggingSeverity::Unknown(raw)
        }
    }

    /// Whether `self` is what [`from_raw`](Self::from_raw) gives for its own raw value:
    /// every named variant is, and so is `Unknown(v)` for a `v` that no variant names.
    pub open spec fn is_canonical(self) -> bool {
        match self {
            LoggingSeverity::Unknown(v) => Self::of_raw(v) == self,
            _ => true,
        }
    }

    /// Convert from the raw C value.
    pub fn from_raw(raw: i32) -> (r: Self)
        ensures
            r == Self::of_raw(raw),
    {
        match raw {
            1 => LoggingSeverity::Verbose,
            2 => LoggingSeverity::Info,
            3 => LoggingSeverity::Warning,
            4 => LoggingSeverity::Error,
            5 => LoggingSeverity::Off,
            other => LoggingSeverity::Unknown(other),
        }
    }

    /// Convert back to the raw C value.
    pub fn into_raw(self) -> (r: i32)
        ensures
            r == self.raw_value(),
    {
        match self {
            LoggingSeverity::Verbose => 1,
            LoggingSeverity::Info => 2,
            LoggingSeverity::Warning => 3,
            LoggingSeverity::Error => 4,
            LoggingSeverity::Off => 5,
            LoggingSeverity::Unknown(v) => v,
        }
    }
}

/// Every raw value survives a trip through `LoggingSeverity`: `from_raw` followed by
/// `into_raw` gives back the value it started from, recognised or not.
pub proof fn lemma_logging_severity_raw_round_trip(raw: i32)
    ensures
        LoggingSeverity::of_raw(raw).raw_value() == raw,
        LoggingSeverity::of_raw(raw).is_canonical(),
{
}

/// Every canonical `LoggingSeverity` survives a trip through its raw value: `into_raw`
/// followed by `from_raw` gives back the same variant.
pub proof fn lemma_logging_severity_variant_round_trip(value: LoggingSeverity)
    requires
        value.is_canonical(),
    ensures
        LoggingSeverity::of_raw(value.raw_value()) == value,
{
}

/// A logical grouping of relationships by online status and game activity.
#[derive(Debug, Clone, Copy, PartialEq, Eq, Hash, Structural)]
#[non_exhaustive]
pub enum RelationshipGroupType {
    /// Users who are online and currently playing the game.
    OnlinePlayingGame,
    /// Users who are online but not playing the game.
    OnlineElsewhere,
    /// Users who are offline.
    Offline,
    /// A value this binding does not recognise.
    Unknown(i32),
}

impl RelationshipGroupType {
    /// The raw C value that `self` stands for.
    pub open spec fn raw_value(self) -> i32 {
        match self {
            RelationshipGroupType::OnlinePlayingGame => 0,
            RelationshipGroupType::OnlineElsewhere => 1,
            RelationshipGroupType::Offline => 2,
            RelationshipGroupType::Unknown(v) => v,
        }
    }

    /// The variant that the raw C value `raw` stands for.
    pub open spec fn of_raw(raw: i32) -> RelationshipGroupType {
        if raw == 0 {
            RelationshipGroupType::OnlinePlayingGame
        } else if raw == 1 {
            RelationshipGroupType::OnlineElsewhere
        } else if raw == 2 {
            RelationshipGroupType::Offline
        } else {
            RelationshipGroupType::Unknown(raw)
        }
    }

    /// Whether `self` is what [`from_raw`](Self::from_raw) gives for its own raw value:
    /// every named variant is, and so is `Unknown(v)` for a `v` that no variant names.
    pub open spec fn is_canonical(self) -> bool {
        match self {
            RelationshipGroupType::Unknown(v) => Self::of_raw(v) == self,
            _ => true,
        }
    }

    /// Convert from the raw C value.
    pub fn from_raw(raw: i32) -> (r: Self)
        ensures
            r == Self::of_raw(raw),
    {
        match raw {
            0 => RelationshipGroupType::OnlinePlayingGame,
            1 => RelationshipGroupType::OnlineElsewhere,
            2 => RelationshipGroupType::Offline,
            other => RelationshipGroupType::Unknown(other),
        }
    }

    /// Convert back to the raw C value.
    pub fn into_raw(self) -> (r: i32)
        ensures
            r == self.raw_value(),
    {
        match self {
            RelationshipGroupType::OnlinePlayingGame => 0,
            RelationshipGroupType::OnlineElsewhere => 1,
            RelationshipGroupType::Offline => 2,
            RelationshipGroupType::Unknown(v) => v,
        }
    }
}

/// Every raw value survives a trip through `RelationshipGroupType`: `from_raw` followed by
/// `into_raw` gives back the value it started from, recognised or not.
pub proof fn lemma_relationship_group_type_raw_round_trip(raw: i32)
    ensures
        RelationshipGroupType::of_raw(raw).raw_value() == raw,
        RelationshipGroupType::of_raw(raw).is_canonical(),
{
}

/// Every canonical `RelationshipGroupType` survives a trip through its raw value: `into_raw`
/// followed by `from_raw` gives back the same variant.
pub proof fn lemma_relationship_group_type_variant_round_trip(value: RelationshipGroupType)
    requires
        value.is_canonical(),
    ensures
        RelationshipGroupType::of_raw(value.raw_value()) == value,
{
}

impl ActivityGamePlatform {
    /// Whether `self` is one of the platforms the binding names.
    pub open spec fn is_named(self) -> bool {
        !(self is Unknown)
    }
}

/// A set of [`ActivityGamePlatform`] flags.
///
/// The SDK passes activity invite platforms as a bitwise-or of the individual
/// [`ActivityGamePlatform`] values. This is a thin, allocation-free wrapper over
/// that integer.
#[derive(Debug, Clone, Copy, PartialEq, Eq, Hash, Structural)]
pub struct ActivityGamePlatforms(i32);

impl View for ActivityGamePlatforms {
    type V = i32;

    /// The raw bitmask.
    closed spec fn view(&self) -> i32 {
        self.0
    }
}

impl ActivityGamePlatforms {
    /// Whether the bitmask `bits` holds the flag of `platform`: the flag is
    /// nonzero and all of its bits are set.
    pub open spec fn holds(bits: i32, platform: ActivityGamePlatform) -> bool {
        platform.raw_value() != 0 && bits & platform.raw_value() == platform.raw_value()
    }

    /// An empty set.
    pub fn empty() -> (r: Self)
        ensures
            r@ == 0,
    {
        ActivityGamePlatforms(0)
    }

    /// Wrap a raw bitmask as received from the SDK.
    ///
    /// Bits this binding does not recognise are preserved, so a value round
    /// trips unchanged through [`bits`](Self::bits).
    pub fn from_bits(bits: i32) -> (r: Self)
        ensures
            r@ == bits,
    {
        ActivityGamePlatforms(bits)
    }

    /// The raw bitmask, suitable for passing back to the SDK.
    pub fn bits(self) -> (r: i32)
        ensures
            r == self@,
    {
        self.0
    }

    /// Whether `platform` is present in the set.
    pub fn contains(self, platform: ActivityGamePlatform) -> (r: bool)
        ensures
            r == Self::holds(self@, platform),
    {
        let bit = platform.into_raw();
        bit != 0 && self.0 & bit == bit
    }

    /// Add `platform` to the set.
    pub fn insert(&mut self, platform: ActivityGamePlatform)
        ensures
            final(self)@ == old(self)@ | platform.raw_value(),
    {
        self.0 = self.0 | platform.into_raw();
    }
}

impl Default for ActivityGamePlatforms {
    /// An empty set.
    fn default() -> (r: Self)
        ensures
            r@ == 0,
    {
        ActivityGamePlatforms(0)
    }
}

/// Two sets with the same bitmask are the same set: `==` on sets compares
/// their bitmasks, so `empty()`, `default()` and `from_bits(0)` are all equal.
pub proof fn lemma_same_bits_same_set(a: ActivityGamePlatforms, b: ActivityGamePlatforms)
    ensures
        a@ == b@ <==> a == b,
{
}

/// The empty set holds no platform.
pub proof fn lemma_empty_holds_nothing(platform: ActivityGamePlatform)
    ensures
        !ActivityGamePlatforms::holds(0, platform),
{
    let b = platform.raw_value();
    assert(b != 0 ==> 0i32 & b != b) by (bit_vector);
}

/// After inserting a platform whose flag is nonzero, the set holds it.
pub proof fn lemma_insert_then_holds(bits: i32, platform: ActivityGamePlatform)
    requires
        platform.raw_value() != 0,
    ensures
        ActivityGamePlatforms::holds(bits | platform.raw_value(), platform),
{
    let b = platform.raw_value();
    assert((bits | b) & b == b) by (bit_vector);
}

/// Inserting a platform keeps every platform the set already held.
pub proof fn lemma_insert_keeps(bits: i32, platform: ActivityGamePlatform, other: ActivityGamePlatform)
    requires
        ActivityGamePlatforms::holds(bits, other),
    ensures
        ActivityGamePlatforms::holds(bits | platform.raw_value(), other),
{
    let b = platform.raw_value();
    let c = other.raw_value();
    assert(bits & c == c ==> (bits | b) & c == c) by (bit_vector);
}

/// Inserting the same platform twice leaves the same set as inserting it once.
pub proof fn lemma_insert_idempotent(bits: i32, platform: ActivityGamePlatform)
    ensures
        (bits | platform.raw_value()) | platform.raw_value() == bits | platform.raw_value(),
{
    let b = platform.raw_value();
    assert((bits | b) | b == bits | b) by (bit_vector);
}

/// The order in which two platforms are inserted does not matter.
pub proof fn lemma_insert_commutes(bits: i32, first: ActivityGamePlatform, second: ActivityGamePlatform)
    ensures
        (bits | first.raw_value()) | second.raw_value() == (bits | second.raw_value()) | first.raw_value(),
{
    let a = first.raw_value();
    let b = second.raw_value();
    assert((bits | a) | b == (bits | b) | a) by (bit_vector);
}

/// Distinct named platforms have flags that share no bit, so inserting one
/// never makes the set hold another that it did not hold before.
pub proof fn lemma_insert_adds_only_itself(bits: i32, platform: ActivityGamePlatform, other: ActivityGamePlatform)
    requires
        platform.is_named(),
        other.is_named(),
        platform != other,
        !ActivityGamePlatforms::holds(bits, other),
    ensures
        !ActivityGamePlatforms::holds(bits | platform.raw_value(), other),
{
    let b = platform.raw_value();
    let c = other.raw_value();
    assert(b != c);
    assert(b == 1 || b == 2 || b == 4 || b == 8 || b == 16 || b == 32 || b == 64 || b == 128);
    assert(c == 1 || c == 2 || c == 4 || c == 8 || c == 16 || c == 32 || c == 64 || c == 128);
    assert((b == 1 || b == 2 || b == 4 || b == 8 || b == 16 || b == 32 || b == 64 || b == 128) && (c
        == 1 || c == 2 || c == 4 || c == 8 || c == 16 || c == 32 || c == 64 || c == 128) && b != c
        && bits & c != c ==> (bits | b) & c != c) by (bit_vector);
}

/// Each named platform has the flag the SDK assigns it: Desktop 1, Xbox 2, Samsung 4,
/// iOS 8, Android 16, Embedded 32, PS4 64, PS5 128. A raw value is read as a
/// named platform exactly when it is that platform's flag; any other raw value
/// is kept as `Unknown`.
pub proof fn lemma_platform_flags(raw: i32)
    ensures
        ActivityGamePlatform::Desktop.raw_value() == 1,
        ActivityGamePlatform::Xbox.raw_value() == 2,
        ActivityGamePlatform::Samsung.raw_value() == 4,
        ActivityGamePlatform::Ios.raw_value() == 8,
        ActivityGamePlatform::Android.raw_value() == 16,
        ActivityGamePlatform::Embedded.raw_value() == 32,
        ActivityGamePlatform::Ps4.raw_value() == 64,
        ActivityGamePlatform::Ps5.raw_value() == 128,
        (ActivityGamePlatform::of_raw(raw) == ActivityGamePlatform::Desktop) <==> raw == 1,
        (ActivityGamePlatform::of_raw(raw) == ActivityGamePlatform::Xbox) <==> raw == 2,
        (ActivityGamePlatform::of_raw(raw) == ActivityGamePlatform::Samsung) <==> raw == 4,
        (ActivityGamePlatform::of_raw(raw) == ActivityGamePlatform::Ios) <==> raw == 8,
        (ActivityGamePlatform::of_raw(raw) == ActivityGamePlatform::Android) <==> raw == 16,
        (ActivityGamePlatform::of_raw(raw) == ActivityGamePlatform::Embedded) <==> raw == 32,
        (ActivityGamePlatform::of_raw(raw) == ActivityGamePlatform::Ps4) <==> raw == 64,
        (ActivityGamePlatform::of_raw(raw) == ActivityGamePlatform::Ps5) <==> raw == 128,
        (raw != 1 && raw != 2 && raw != 4 && raw != 8 && raw != 16 && raw != 32 && raw != 64 && raw != 128) ==> ActivityGamePlatform::of_raw(raw) == ActivityGamePlatform::Unknown(raw),
{
}

/// Membership tests the platform's own flag: for every bitmask, the set holds a
/// named platform exactly when the bit the SDK assigns that platform is set.
/// So a PS4-only mask (64) holds PS4 and not Embedded (32).
pub proof fn lemma_contains_tests_own_flag(bits: i32)
    ensures
        ActivityGamePlatforms::holds(bits, ActivityGamePlatform::Desktop) <==> bits & 1 == 1,
        ActivityGamePlatforms::holds(bits, ActivityGamePlatform::Xbox) <==> bits & 2 == 2,
        ActivityGamePlatforms::holds(bits, ActivityGamePlatform::Samsung) <==> bits & 4 == 4,
        ActivityGamePlatforms::holds(bits, ActivityGamePlatform::Ios) <==> bits & 8 == 8,
        ActivityGamePlatforms::holds(bits, ActivityGamePlatform::Android) <==> bits & 16 == 16,
        ActivityGamePlatforms::holds(bits, ActivityGamePlatform::Embedded) <==> bits & 32 == 32,
        ActivityGamePlatforms::holds(bits, ActivityGamePlatform::Ps4) <==> bits & 64 == 64,
        ActivityGamePlatforms::holds(bits, ActivityGamePlatform::Ps5) <==> bits & 128 == 128,
        ActivityGamePlatforms::holds(64, ActivityGamePlatform::Ps4),
        !ActivityGamePlatforms::holds(64, ActivityGamePlatform::Embedded),
        0i32 | ActivityGamePlatform::Ps4.raw_value() == 64,
{
    assert(64i32 & 64 == 64) by (bit_vector);
    assert(64i32 & 32 != 32) by (bit_vector);
    assert(0i32 | 64 == 64) by (bit_vector);
}

/// The client statuses carry the SDK's numbers: 0 Disconnected, 1 Connecting,
/// 2 Connected, 3 Ready, 4 Reconnecting, 5 Disconnecting, 6 HttpWait. A raw
/// status is read as a named status exactly when it is that status's number;
/// any other raw status is kept as `Unknown`.
pub proof fn lemma_client_status_numbering(raw: i32)
    ensures
        ClientStatus::Disconnected.raw_value() == 0,
        ClientStatus::Connecting.raw_value() == 1,
        ClientStatus::Connected.raw_value() == 2,
        ClientStatus::Ready.raw_value() == 3,
        ClientStatus::Reconnecting.raw_value() == 4,
        ClientStatus::Disconnecting.raw_value() == 5,
        ClientStatus::HttpWait.raw_value() == 6,
        (ClientStatus::of_raw(raw) == ClientStatus::Disconnected) <==> raw == 0,
        (ClientStatus::of_raw(raw) == ClientStatus::Connecting) <==> raw == 1,
        (ClientStatus::of_raw(raw) == ClientStatus::Connected) <==> raw == 2,
        (ClientStatus::of_raw(raw) == ClientStatus::Ready) <==> raw == 3,
        (ClientStatus::of_raw(raw) == ClientStatus::Reconnecting) <==> raw == 4,
        (ClientStatus::of_raw(raw) == ClientStatus::Disconnecting) <==> raw == 5,
        (ClientStatus::of_raw(raw) == ClientStatus::HttpWait) <==> raw == 6,
        (raw != 0 && raw != 1 && raw != 2 && raw != 3 && raw != 4 && raw != 5 && raw != 6) ==> ClientStatus::of_raw(raw) == ClientStatus::Unknown(raw),
{
}

/// The channel types follow Discord's fixed numbering: 0 GuildText, 1 Dm,
/// 2 GuildVoice, 3 GroupDm, 4 GuildCategory, 5 GuildNews, 6 GuildStore,
/// 10 GuildNewsThread, 11 GuildPublicThread, 12 GuildPrivateThread,
/// 13 GuildStageVoice, 14 GuildDirectory, 15 GuildForum, 16 GuildMedia,
/// 17 Lobby, 18 EphemeralDm. A raw type is read as a named type exactly when it
/// is that type's number; any other raw type is kept as `Unknown`.
pub proof fn lemma_channel_type_numbering(raw: i32)
    ensures
        ChannelType::GuildText.raw_value() == 0,
        ChannelType::Dm.raw_value() == 1,
        ChannelType::GuildVoice.raw_value() == 2,
        ChannelType::GroupDm.raw_value() == 3,
        ChannelType::GuildCategory.raw_value() == 4,
        ChannelType::GuildNews.raw_value() == 5,
        ChannelType::GuildStore.raw_value() == 6,
        ChannelType::GuildNewsThread.raw_value() == 10,
        ChannelType::GuildPublicThread.raw_value() == 11,
        ChannelType::GuildPrivateThread.raw_value() == 12,
        ChannelType::GuildStageVoice.raw_value() == 13,
        ChannelType::GuildDirectory.raw_value() == 14,
        ChannelType::GuildForum.raw_value() == 15,
        ChannelType::GuildMedia.raw_value() == 16,
        ChannelType::Lobby.raw_value() == 17,
        ChannelType::EphemeralDm.raw_value() == 18,
        (ChannelType::of_raw(raw) == ChannelType::GuildText) <==> raw == 0,
        (ChannelType::of_raw(raw) == ChannelType::Dm) <==> raw == 1,
        (ChannelType::of_raw(raw) == ChannelType::GuildVoice) <==> raw == 2,
        (ChannelType::of_raw(raw) == ChannelType::GroupDm) <==> raw == 3,
        (ChannelType::of_raw(raw) == ChannelType::GuildCategory) <==> raw == 4,
        (ChannelType::of_raw(raw) == ChannelType::GuildNews) <==> raw == 5,
        (ChannelType::of_raw(raw) == ChannelType::GuildStore) <==> raw == 6,
        (ChannelType::of_raw(raw) == ChannelType::GuildNewsThread) <==> raw == 10,
        (ChannelType::of_raw(raw) == ChannelType::GuildPublicThread) <==> raw == 11,
        (ChannelType::of_raw(raw) == ChannelType::GuildPrivateThread) <==> raw == 12,
        (ChannelType::of_raw(raw) == ChannelType::GuildStageVoice) <==> raw == 13,
        (ChannelType::of_raw(raw) == ChannelType::GuildDirectory) <==> raw == 14,
        (ChannelType::of_raw(raw) == ChannelType::GuildForum) <==> raw == 15,
        (ChannelType::of_raw(raw) == ChannelType::GuildMedia) <==> raw == 16,
        (ChannelType::of_raw(raw) == ChannelType::Lobby) <==> raw == 17,
        (ChannelType::of_raw(raw) == ChannelType::EphemeralDm) <==> raw == 18,
        (raw != 0 && raw != 1 && raw != 2 && raw != 3 && raw != 4 && raw != 5 && raw != 6 && raw != 10 && raw != 11 && raw != 12 && raw != 13 && raw != 14 && raw != 15 && raw != 16 && raw != 17 && raw != 18) ==> ChannelType::of_raw(raw) == ChannelType::Unknown(raw),
{
}

/// The `ActivityActionType` values carry the SDK's numbers (0 Invalid, 1 Join, 5 JoinRequest). A raw value is
/// read as a named variant exactly when it is that variant's number; any other
/// raw value is kept as `Unknown`.
pub proof fn lemma_activity_action_type_numbering(raw: i32)
    ensures
        ActivityActionType::Invalid.raw_value() == 0,
        ActivityActionType::Join.raw_value() == 1,
        ActivityActionType::JoinRequest.raw_value() == 5,
        (ActivityActionType::of_raw(raw) == ActivityActionType::Invalid) <==> raw == 0,
        (ActivityActionType::of_raw(raw) == ActivityActionType::Join) <==> raw == 1,
        (ActivityActionType::of_raw(raw) == ActivityActionType::JoinRequest) <==> raw == 5,
        (raw != 0 && raw != 1 && raw != 5) ==> ActivityActionType::of_raw(raw) == ActivityActionType::Unknown(raw),
{
}

/// The `ActivityPartyPrivacy` values carry the SDK's numbers (0 Private, 1 Public). A raw value is
/// read as a named variant exactly when it is that variant's number; any other
/// raw value is kept as `Unknown`.
pub proof fn lemma_activity_party_privacy_numbering(raw: i32)
    ensures
        ActivityPartyPrivacy::Private.raw_value() == 0,
        ActivityPartyPrivacy::Public.raw_value() == 1,
        (ActivityPartyPrivacy::of_raw(raw) == ActivityPartyPrivacy::Private) <==> raw == 0,
        (ActivityPartyPrivacy::of_raw(raw) == ActivityPartyPrivacy::Public) <==> raw == 1,
        (raw != 0 && raw != 1) ==> ActivityPartyPrivacy::of_raw(raw) == ActivityPartyPrivacy::Unknown(raw),
{
}

/// The `ActivityType` values carry the SDK's numbers (0 Playing, 1 Streaming, 2 Listening, 3 Watching, 4 CustomStatus, 5 Competing, 6 HangStatus). A raw value is
/// read as a named variant exactly when it is that variant's number; any other
/// raw value is kept as `Unknown`.
pub proof fn lemma_activity_type_numbering(raw: i32)
    ensures
        ActivityType::Playing.raw_value() == 0,
        ActivityType::Streaming.raw_value() == 1,
        ActivityType::Listening.raw_value() == 2,
        ActivityType::Watching.raw_value() == 3,
        ActivityType::CustomStatus.raw_value() == 4,
        ActivityType::Competing.raw_value() == 5,
        ActivityType::HangStatus.raw_value() == 6,
        (ActivityType::of_raw(raw) == ActivityType::Playing) <==> raw == 0,
        (ActivityType::of_raw(raw) == ActivityType::Streaming) <==> raw == 1,
        (ActivityType::of_raw(raw) == ActivityType::Listening) <==> raw == 2,
        (ActivityType::of_raw(raw) == ActivityType::Watching) <==> raw == 3,
        (ActivityType::of_raw(raw) == ActivityType::CustomStatus) <==> raw == 4,
        (ActivityType::of_raw(raw) == ActivityType::Competing) <==> raw == 5,
        (ActivityType::of_raw(raw) == ActivityType::HangStatus) <==> raw == 6,
        (raw != 0 && raw != 1 && raw != 2 && raw != 3 && raw != 4 && raw != 5 && raw != 6) ==> ActivityType::of_raw(raw) == ActivityType::Unknown(raw),
{
}

/// The `StatusDisplayType` values carry the SDK's numbers (0 Name, 1 State, 2 Details). A raw value is
/// read as a named variant exactly when it is that variant's number; any other
/// raw value is kept as `Unknown`.
pub proof fn lemma_status_display_type_numbering(raw: i32)
    ensures
        StatusDisplayType::Name.raw_value() == 0,
        StatusDisplayType::State.raw_value() == 1,
        StatusDisplayType::Details.raw_value() == 2,
        (StatusDisplayType::of_raw(raw) == StatusDisplayType::Name) <==> raw == 0,
        (StatusDisplayType::of_raw(raw) == StatusDisplayType::State) <==> raw == 1,
        (StatusDisplayType::of_raw(raw) == StatusDisplayType::Details) <==> raw == 2,
        (raw != 0 && raw != 1 && raw != 2) ==> StatusDisplayType::of_raw(raw) == StatusDisplayType::Unknown(raw),
{
}

/// The `CodeChallengeMethod` values carry the SDK's numbers (0 S256). A raw value is
/// read as a named variant exactly when it is that variant's number; any other
/// raw value is kept as `Unknown`.
pub proof fn lemma_code_challenge_method_numbering(raw: i32)
    ensures
        CodeChallengeMethod::S256.raw_value() == 0,
        (CodeChallengeMethod::of_raw(raw) == CodeChallengeMethod::S256) <==> raw == 0,
        (raw != 0) ==> CodeChallengeMethod::of_raw(raw) == CodeChallengeMethod::Unknown(raw),
{
}

/// The `IntegrationType` values carry the SDK's numbers (0 GuildInstall, 1 UserInstall). A raw value is
/// read as a named variant exactly when it is that variant's number; any other
/// raw value is kept as `Unknown`.
pub proof fn lemma_integration_type_numbering(raw: i32)
    ensures
        IntegrationType::GuildInstall.raw_value() == 0,
        IntegrationType::UserInstall.raw_value() == 1,
        (IntegrationType::of_raw(raw) == IntegrationType::GuildInstall) <==> raw == 0,
        (IntegrationType::of_raw(raw) == IntegrationType::UserInstall) <==> raw == 1,
        (raw != 0 && raw != 1) ==> IntegrationType::of_raw(raw) == IntegrationType::Unknown(raw),
{
}

/// The `AdditionalContentType` values carry the SDK's numbers (0 Other, 1 Attachment, 2 Poll, 3 VoiceMessage, 4 Thread, 5 Embed, 6 Sticker). A raw value is
/// read as a named variant exactly when it is that variant's number; any other
/// raw value is kept as `Unknown`.
pub proof fn lemma_additional_content_type_numbering(raw: i32)
    ensures
        AdditionalContentType::Other.raw_value() == 0,
        AdditionalContentType::Attachment.raw_value() == 1,
        AdditionalContentType::Poll.raw_value() == 2,
        AdditionalContentType::VoiceMessage.raw_value() == 3,
        AdditionalContentType::Thread.raw_value() == 4,
        AdditionalContentType::Embed.raw_value() == 5,
        AdditionalContentType::Sticker.raw_value() == 6,
        (AdditionalContentType::of_raw(raw) == AdditionalContentType::Other) <==> raw == 0,
        (AdditionalContentType::of_raw(raw) == AdditionalContentType::Attachment) <==> raw == 1,
        (AdditionalContentType::of_raw(raw) == AdditionalContentType::Poll) <==> raw == 2,
        (AdditionalContentType::of_raw(raw) == AdditionalContentType::VoiceMessage) <==> raw == 3,
        (AdditionalContentType::of_raw(raw) == AdditionalContentType::Thread) <==> raw == 4,
        (AdditionalContentType::of_raw(raw) == AdditionalContentType::Embed) <==> raw == 5,
        (AdditionalContentType::of_raw(raw) == AdditionalContentType::Sticker) <==> raw == 6,
        (raw != 0 && raw != 1 && raw != 2 && raw != 3 && raw != 4 && raw != 5 && raw != 6) ==> AdditionalContentType::of_raw(raw) == AdditionalContentType::Unknown(raw),
{
}

/// The `AudioSystem` values carry the SDK's numbers (0 Standard, 1 Game). A raw value is
/// read as a named variant exactly when it is that variant's number; any other
/// raw value is kept as `Unknown`.
pub proof fn lemma_audio_system_numbering(raw: i32)
    ensures
        AudioSystem::Standard.raw_value() == 0,
        AudioSystem::Game.raw_value() == 1,
        (AudioSystem::of_raw(raw) == AudioSystem::Standard) <==> raw == 0,
        (AudioSystem::of_raw(raw) == AudioSystem::Game) <==> raw == 1,
        (raw != 0 && raw != 1) ==> AudioSystem::of_raw(raw) == AudioSystem::Unknown(raw),
{
}

/// The `CallError` values carry the SDK's numbers (0 NoError, 1 SignalingConnectionFailed, 2 SignalingUnexpectedClose, 3 VoiceConnectionFailed, 4 JoinTimeout, 5 Forbidden). A raw value is
/// read as a named variant exactly when it is that variant's number; any other
/// raw value is kept as `Unknown`.
pub proof fn lemma_call_error_numbering(raw: i32)
    ensures
        CallError::NoError.raw_value() == 0,
        CallError::SignalingConnectionFailed.raw_value() == 1,
        CallError::SignalingUnexpectedClose.raw_value() == 2,
        CallError::VoiceConnectionFailed.raw_value() == 3,
        CallError::JoinTimeout.raw_value() == 4,
        CallError::Forbidden.raw_value() == 5,
        (CallError::of_raw(raw) == CallError::NoError) <==> raw == 0,
        (CallError::of_raw(raw) == CallError::SignalingConnectionFailed) <==> raw == 1,
        (CallError::of_raw(raw) == CallError::SignalingUnexpectedClose) <==> raw == 2,
        (CallError::of_raw(raw) == CallError::VoiceConnectionFailed) <==> raw == 3,
        (CallError::of_raw(raw) == CallError::JoinTimeout) <==> raw == 4,
        (CallError::of_raw(raw) == CallError::Forbidden) <==> raw == 5,
        (raw != 0 && raw != 1 && raw != 2 && raw != 3 && raw != 4 && raw != 5) ==> CallError::of_raw(raw) == CallError::Unknown(raw),
{
}

/// The `AudioModeType` values carry the SDK's numbers (0 ModeUninit, 1 ModeVad, 2 ModePtt). A raw value is
/// read as a named variant exactly when it is that variant's number; any other
/// raw value is kept as `Unknown`.
pub proof fn lemma_audio_mode_type_numbering(raw: i32)
    ensures
        AudioModeType::ModeUninit.raw_value() == 0,
        AudioModeType::ModeVad.raw_value() == 1,
        AudioModeType::ModePtt.raw_value() == 2,
        (AudioModeType::of_raw(raw) == AudioModeType::ModeUninit) <==> raw == 0,
        (AudioModeType::of_raw(raw) == AudioModeType::ModeVad) <==> raw == 1,
        (AudioModeType::of_raw(raw) == AudioModeType::ModePtt) <==> raw == 2,
        (raw != 0 && raw != 1 && raw != 2) ==> AudioModeType::of_raw(raw) == AudioModeType::Unknown(raw),
{
}

/// The `CallStatus` values carry the SDK's numbers (0 Disconnected, 1 Joining, 2 Connecting, 3 SignalingConnected, 4 Connected, 5 Reconnecting, 6 Disconnecting). A raw value is
/// read as a named variant exactly when it is that variant's number; any other
/// raw value is kept as `Unknown`.
pub proof fn lemma_call_status_numbering(raw: i32)
    ensures
        CallStatus::Disconnected.raw_value() == 0,
        CallStatus::Joining.raw_value() == 1,
        CallStatus::Connecting.raw_value() == 2,
        CallStatus::SignalingConnected.raw_value() == 3,
        CallStatus::Connected.raw_value() == 4,
        CallStatus::Reconnecting.raw_value() == 5,
        CallStatus::Disconnecting.raw_value() == 6,
        (CallStatus::of_raw(raw) == CallStatus::Disconnected) <==> raw == 0,
        (CallStatus::of_raw(raw) == CallStatus::Joining) <==> raw == 1,
        (CallStatus::of_raw(raw) == CallStatus::Connecting) <==> raw == 2,
        (CallStatus::of_raw(raw) == CallStatus::SignalingConnected) <==> raw == 3,
        (CallStatus::of_raw(raw) == CallStatus::Connected) <==> raw == 4,
        (CallStatus::of_raw(raw) == CallStatus::Reconnecting) <==> raw == 5,
        (CallStatus::of_raw(raw) == CallStatus::Disconnecting) <==> raw == 6,
        (raw != 0 && raw != 1 && raw != 2 && raw != 3 && raw != 4 && raw != 5 && raw != 6) ==> CallStatus::of_raw(raw) == CallStatus::Unknown(raw),
{
}

/// The `RelationshipType` values carry the SDK's numbers (0 NoRelationship, 1 Friend, 2 Blocked, 3 PendingIncoming, 4 PendingOutgoing, 5 Implicit, 6 Suggestion). A raw value is
/// read as a named variant exactly when it is that variant's number; any other
/// raw value is kept as `Unknown`.
pub proof fn lemma_relationship_type_numbering(raw: i32)
    ensures
        RelationshipType::NoRelationship.raw_value() == 0,
        RelationshipType::Friend.raw_value() == 1,
        RelationshipType::Blocked.raw_value() == 2,
        RelationshipType::PendingIncoming.raw_value() == 3,
        RelationshipType::PendingOutgoing.raw_value() == 4,
        RelationshipType::Implicit.raw_value() == 5,
        RelationshipType::Suggestion.raw_value() == 6,
        (RelationshipType::of_raw(raw) == RelationshipType::NoRelationship) <==> raw == 0,
        (RelationshipType::of_raw(raw) == RelationshipType::Friend) <==> raw == 1,
        (RelationshipType::of_raw(raw) == RelationshipType::Blocked) <==> raw == 2,
        (RelationshipType::of_raw(raw) == RelationshipType::PendingIncoming) <==> raw == 3,
        (RelationshipType::of_raw(raw) == RelationshipType::PendingOutgoing) <==> raw == 4,
        (RelationshipType::of_raw(raw) == RelationshipType::Implicit) <==> raw == 5,
        (RelationshipType::of_raw(raw) == RelationshipType::Suggestion) <==> raw == 6,
        (raw != 0 && raw != 1 && raw != 2 && raw != 3 && raw != 4 && raw != 5 && raw != 6) ==> RelationshipType::of_raw(raw) == RelationshipType::Unknown(raw),
{
}

/// The `ExternalIdentityProviderType` values carry the SDK's numbers (0 Oidc, 1 EpicOnlineServices, 2 Steam, 3 Unity, 4 DiscordBot, 5 NoProvider, 6 UnknownProvider). A raw value is
/// read as a named variant exactly when it is that variant's number; any other
/// raw value is kept as `Unknown`.
pub proof fn lemma_external_identity_provider_type_numbering(raw: i32)
    ensures
        ExternalIdentityProviderType::Oidc.raw_value() == 0,
        ExternalIdentityProviderType::EpicOnlineServices.raw_value() == 1,
        ExternalIdentityProviderType::Steam.raw_value() == 2,
        ExternalIdentityProviderType::Unity.raw_value() == 3,
        ExternalIdentityProviderType::DiscordBot.raw_value() == 4,
        ExternalIdentityProviderType::NoProvider.raw_value() == 5,
        ExternalIdentityProviderType::UnknownProvider.raw_value() == 6,
        (ExternalIdentityProviderType::of_raw(raw) == ExternalIdentityProviderType::Oidc) <==> raw == 0,
        (ExternalIdentityProviderType::of_raw(raw) == ExternalIdentityProviderType::EpicOnlineServices) <==> raw == 1,
        (ExternalIdentityProviderType::of_raw(raw) == ExternalIdentityProviderType::Steam) <==> raw == 2,
        (ExternalIdentityProviderType::of_raw(raw) == ExternalIdentityProviderType::Unity) <==> raw == 3,
        (ExternalIdentityProviderType::of_raw(raw) == ExternalIdentityProviderType::DiscordBot) <==> raw == 4,
        (ExternalIdentityProviderType::of_raw(raw) == ExternalIdentityProviderType::NoProvider) <==> raw == 5,
        (ExternalIdentityProviderType::of_raw(raw) == ExternalIdentityProviderType::UnknownProvider) <==> raw == 6,
        (raw != 0 && raw != 1 && raw != 2 && raw != 3 && raw != 4 && raw != 5 && raw != 6) ==> ExternalIdentityProviderType::of_raw(raw) == ExternalIdentityProviderType::Unknown(raw),
{
}

/// The `AvatarType` values carry the SDK's numbers (0 Gif, 1 Webp, 2 Png, 3 Jpeg). A raw value is
/// read as a named variant exactly when it is that variant's number; any other
/// raw value is kept as `Unknown`.
pub proof fn lemma_avatar_type_numbering(raw: i32)
    ensures
        AvatarType::Gif.raw_value() == 0,
        AvatarType::Webp.raw_value() == 1,
        AvatarType::Png.raw_value() == 2,
        AvatarType::Jpeg.raw_value() == 3,
        (AvatarType::of_raw(raw) == AvatarType::Gif) <==> raw == 0,
        (AvatarType::of_raw(raw) == AvatarType::Webp) <==> raw == 1,
        (AvatarType::of_raw(raw) == AvatarType::Png) <==> raw == 2,
        (AvatarType::of_raw(raw) == AvatarType::Jpeg) <==> raw == 3,
        (raw != 0 && raw != 1 && raw != 2 && raw != 3) ==> AvatarType::of_raw(raw) == AvatarType::Unknown(raw),
{
}

/// The `StatusType` values carry the SDK's numbers (0 Online, 1 Offline, 2 Blocked, 3 Idle, 4 Dnd, 5 Invisible, 6 Streaming, 7 UnknownStatus). A raw value is
/// read as a named variant exactly when it is that variant's number; any other
/// raw value is kept as `Unknown`.
pub proof fn lemma_status_type_numbering(raw: i32)
    ensures
        StatusType::Online.raw_value() == 0,
        StatusType::Offline.raw_value() == 1,
        StatusType::Blocked.raw_value() == 2,
        StatusType::Idle.raw_value() == 3,
        StatusType::Dnd.raw_value() == 4,
        StatusType::Invisible.raw_value() == 5,
        StatusType::Streaming.raw_value() == 6,
        StatusType::UnknownStatus.raw_value() == 7,
        (StatusType::of_raw(raw) == StatusType::Online) <==> raw == 0,
        (StatusType::of_raw(raw) == StatusType::Offline) <==> raw == 1,
        (StatusType::of_raw(raw) == StatusType::Blocked) <==> raw == 2,
        (StatusType::of_raw(raw) == StatusType::Idle) <==> raw == 3,
        (StatusType::of_raw(raw) == StatusType::Dnd) <==> raw == 4,
        (StatusType::of_raw(raw) == StatusType::Invisible) <==> raw == 5,
        (StatusType::of_raw(raw) == StatusType::Streaming) <==> raw == 6,
        (StatusType::of_raw(raw) == StatusType::UnknownStatus) <==> raw == 7,
        (raw != 0 && raw != 1 && raw != 2 && raw != 3 && raw != 4 && raw != 5 && raw != 6 && raw != 7) ==> StatusType::of_raw(raw) == StatusType::Unknown(raw),
{
}

/// The `DisclosureType` values carry the SDK's numbers (3 MessageDataVisibleOnDiscord). A raw value is
/// read as a named variant exactly when it is that variant's number; any other
/// raw value is kept as `Unknown`.
pub proof fn lemma_disclosure_type_numbering(raw: i32)
    ensures
        DisclosureType::MessageDataVisibleOnDiscord.raw_value() == 3,
        (DisclosureType::of_raw(raw) == DisclosureType::MessageDataVisibleOnDiscord) <==> raw == 3,
        (raw != 3) ==> DisclosureType::of_raw(raw) == DisclosureType::Unknown(raw),
{
}

/// The `ClientError` values carry the SDK's numbers (0 NoError, 1 ConnectionFailed, 2 UnexpectedClose, 3 ConnectionCanceled). A raw value is
/// read as a named variant exactly when it is that variant's number; any other
/// raw value is kept as `Unknown`.
pub proof fn lemma_client_error_numbering(raw: i32)
    ensures
        ClientError::NoError.raw_value() == 0,
        ClientError::ConnectionFailed.raw_value() == 1,
        ClientError::UnexpectedClose.raw_value() == 2,
        ClientError::ConnectionCanceled.raw_value() == 3,
        (ClientError::of_raw(raw) == ClientError::NoError) <==> raw == 0,
        (ClientError::of_raw(raw) == ClientError::ConnectionFailed) <==> raw == 1,
        (ClientError::of_raw(raw) == ClientError::UnexpectedClose) <==> raw == 2,
        (ClientError::of_raw(raw) == ClientError::ConnectionCanceled) <==> raw == 3,
        (raw != 0 && raw != 1 && raw != 2 && raw != 3) ==> ClientError::of_raw(raw) == ClientError::Unknown(raw),
{
}

/// The `ClientThread` values carry the SDK's numbers (0 Client, 1 Voice, 2 Network). A raw value is
/// read as a named variant exactly when it is that variant's number; any other
/// raw value is kept as `Unknown`.
pub proof fn lemma_client_thread_numbering(raw: i32)
    ensures
        ClientThread::Client.raw_value() == 0,
        ClientThread::Voice.raw_value() == 1,
        ClientThread::Network.raw_value() == 2,
        (ClientThread::of_raw(raw) == ClientThread::Client) <==> raw == 0,
        (ClientThread::of_raw(raw) == ClientThread::Voice) <==> raw == 1,
        (ClientThread::of_raw(raw) == ClientThread::Network) <==> raw == 2,
        (raw != 0 && raw != 1 && raw != 2) ==> ClientThread::of_raw(raw) == ClientThread::Unknown(raw),
{
}

/// The `AuthorizationTokenType` values carry the SDK's numbers (0 User, 1 Bearer). A raw value is
/// read as a named variant exactly when it is that variant's number; any other
/// raw value is kept as `Unknown`.
pub proof fn lemma_authorization_token_type_numbering(raw: i32)
    ensures
        AuthorizationTokenType::User.raw_value() == 0,
        AuthorizationTokenType::Bearer.raw_value() == 1,
        (AuthorizationTokenType::of_raw(raw) == AuthorizationTokenType::User) <==> raw == 0,
        (AuthorizationTokenType::of_raw(raw) == AuthorizationTokenType::Bearer) <==> raw == 1,
        (raw != 0 && raw != 1) ==> AuthorizationTokenType::of_raw(raw) == AuthorizationTokenType::Unknown(raw),
{
}

/// The `ExternalAuthType` values carry the SDK's numbers (0 Oidc, 1 EpicOnlineServicesAccessToken, 2 EpicOnlineServicesIdToken, 3 SteamSessionTicket, 4 UnityServicesIdToken, 5 DiscordBotIssuedAccessToken, 6 AppleIdToken, 7 PlayStationNetworkIdToken). A raw value is
/// read as a named variant exactly when it is that variant's number; any other
/// raw value is kept as `Unknown`.
pub proof fn lemma_external_auth_type_numbering(raw: i32)
    ensures
        ExternalAuthType::Oidc.raw_value() == 0,
        ExternalAuthType::EpicOnlineServicesAccessToken.raw_value() == 1,
        ExternalAuthType::EpicOnlineServicesIdToken.raw_value() == 2,
        ExternalAuthType::SteamSessionTicket.raw_value() == 3,
        ExternalAuthType::UnityServicesIdToken.raw_value() == 4,
        ExternalAuthType::DiscordBotIssuedAccessToken.raw_value() == 5,
        ExternalAuthType::AppleIdToken.raw_value() == 6,
        ExternalAuthType::PlayStationNetworkIdToken.raw_value() == 7,
        (ExternalAuthType::of_raw(raw) == ExternalAuthType::Oidc) <==> raw == 0,
        (ExternalAuthType::of_raw(raw) == ExternalAuthType::EpicOnlineServicesAccessToken) <==> raw == 1,
        (ExternalAuthType::of_raw(raw) == ExternalAuthType::EpicOnlineServicesIdToken) <==> raw == 2,
        (ExternalAuthType::of_raw(raw) == ExternalAuthType::SteamSessionTicket) <==> raw == 3,
        (ExternalAuthType::of_raw(raw) == ExternalAuthType::UnityServicesIdToken) <==> raw == 4,
        (ExternalAuthType::of_raw(raw) == ExternalAuthType::DiscordBotIssuedAccessToken) <==> raw == 5,
        (ExternalAuthType::of_raw(raw) == ExternalAuthType::AppleIdToken) <==> raw == 6,
        (ExternalAuthType::of_raw(raw) == ExternalAuthType::PlayStationNetworkIdToken) <==> raw == 7,
        (raw != 0 && raw != 1 && raw != 2 && raw != 3 && raw != 4 && raw != 5 && raw != 6 && raw != 7) ==> ExternalAuthType::of_raw(raw) == ExternalAuthType::Unknown(raw),
{
}

/// The `LoggingSeverity` values carry the SDK's numbers (1 Verbose, 2 Info, 3 Warning, 4 Error, 5 Off). A raw value is
/// read as a named variant exactly when it is that variant's number; any other
/// raw value is kept as `Unknown`.
pub proof fn lemma_logging_severity_numbering(raw: i32)
    ensures
        LoggingSeverity::Verbose.raw_value() == 1,
        LoggingSeverity::Info.raw_value() == 2,
        LoggingSeverity::Warning.raw_value() == 3,
        LoggingSeverity::Error.raw_value() == 4,
        LoggingSeverity::Off.raw_value() == 5,
        (LoggingSeverity::of_raw(raw) == LoggingSeverity::Verbose) <==> raw == 1,
        (LoggingSeverity::of_raw(raw) == LoggingSeverity::Info) <==> raw == 2,
        (LoggingSeverity::of_raw(raw) == LoggingSeverity::Warning) <==> raw == 3,
        (LoggingSeverity::of_raw(raw) == LoggingSeverity::Error) <==> raw == 4,
        (LoggingSeverity::of_raw(raw) == LoggingSeverity::Off) <==> raw == 5,
        (raw != 1 && raw != 2 && raw != 3 && raw != 4 && raw != 5) ==> LoggingSeverity::of_raw(raw) == LoggingSeverity::Unknown(raw),
{
}

/// The `RelationshipGroupType` values carry the SDK's numbers (0 OnlinePlayingGame, 1 OnlineElsewhere, 2 Offline). A raw value is
/// read as a named variant exactly when it is that variant's number; any other
/// raw value is kept as `Unknown`.
pub proof fn lemma_relationship_group_type_numbering(raw: i32)
    ensures
        RelationshipGroupType::OnlinePlayingGame.raw_value() == 0,
        RelationshipGroupType::OnlineElsewhere.raw_value() == 1,
        RelationshipGroupType::Offline.raw_value() == 2,
        (RelationshipGroupType::of_raw(raw) == RelationshipGroupType::OnlinePlayingGame) <==> raw == 0,
        (RelationshipGroupType::of_raw(raw) == RelationshipGroupType::OnlineElsewhere) <==> raw == 1,
        (RelationshipGroupType::of_raw(raw) == RelationshipGroupType::Offline) <==> raw == 2,
        (raw != 0 && raw != 1 && raw != 2) ==> RelationshipGroupType::of_raw(raw) == RelationshipGroupType::Unknown(raw),
{
}

} // verus!
