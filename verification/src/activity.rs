//! Rich presence: the activity a user is engaged in and its parts.
//!
//! Every type here is a plain value. Setters copy their argument, getters hand
//! out owned copies, and a nested value passed to a setter stays the caller's.

use vstd::prelude::*;
use crate::enums::{
    ActivityActionType, ActivityGamePlatforms, ActivityPartyPrivacy, ActivityType,
    StatusDisplayType,
};
use crate::text::{copy_opt, own_opt, same_opt, view_opt, view_opt_str};

verus! {

// ---------------------------------------------------------------------------
// ActivityAssets
// ---------------------------------------------------------------------------

/// What an [`ActivityAssets`] holds.
pub struct ActivityAssetsView {
    pub large_image: Option<Seq<char>>,
    pub large_text: Option<Seq<char>>,
    pub large_url: Option<Seq<char>>,
    pub small_image: Option<Seq<char>>,
    pub small_text: Option<Seq<char>>,
    pub small_url: Option<Seq<char>>,
    pub invite_cover_image: Option<Seq<char>>,
}

/// Images and hover text shown alongside a rich presence activity.
///
/// Each image is an asset key uploaded to the application, or an external URL.
#[derive(Debug)]
pub struct ActivityAssets {
    large_image: Option<String>,
    large_text: Option<String>,
    large_url: Option<String>,
    small_image: Option<String>,
    small_text: Option<String>,
    small_url: Option<String>,
    invite_cover_image: Option<String>,
}

impl View for ActivityAssets {
    type V = ActivityAssetsView;

    closed spec fn view(&self) -> ActivityAssetsView {
        ActivityAssetsView {
            large_image: view_opt(self.large_image),
            large_text: view_opt(self.large_text),
            large_url: view_opt(self.large_url),
            small_image: view_opt(self.small_image),
            small_text: view_opt(self.small_text),
            small_url: view_opt(self.small_url),
            invite_cover_image: view_opt(self.invite_cover_image),
        }
    }
}

impl ActivityAssets {
    /// Create a new, empty value: no field is set.
    pub fn new() -> (r: Self)
        ensures
            r@ == (ActivityAssetsView {
                large_image: None,
                large_text: None,
                large_url: None,
                small_image: None,
                small_text: None,
                small_url: None,
                invite_cover_image: None,
            }),
    {
        ActivityAssets {
            large_image: None,
            large_text: None,
            large_url: None,
            small_image: None,
            small_text: None,
            small_url: None,
            invite_cover_image: None,
        }
    }

    /// The primary image, if set.
    pub fn large_image(&self) -> (r: Option<String>)
        ensures
            view_opt(r) == self@.large_image,
    {
        copy_opt(&self.large_image)
    }

    /// Set the primary image, or clear it with `None`.
    pub fn set_large_image(&mut self, value: Option<&str>)
        ensures
            final(self)@ == (ActivityAssetsView { large_image: view_opt_str(value), ..old(self)@ }),
    {
        self.large_image = own_opt(value);
    }

    /// Hover text for the primary image, if set.
    pub fn large_text(&self) -> (r: Option<String>)
        ensures
            view_opt(r) == self@.large_text,
    {
        copy_opt(&self.large_text)
    }

    /// Set hover text for the primary image, or clear it with `None`.
    pub fn set_large_text(&mut self, value: Option<&str>)
        ensures
            final(self)@ == (ActivityAssetsView { large_text: view_opt_str(value), ..old(self)@ }),
    {
        self.large_text = own_opt(value);
    }

    /// The URL opened when the primary image is clicked, if set.
    pub fn large_url(&self) -> (r: Option<String>)
        ensures
            view_opt(r) == self@.large_url,
    {
        copy_opt(&self.large_url)
    }

    /// Set the URL opened when the primary image is clicked, or clear it with `None`.
    pub fn set_large_url(&mut self, value: Option<&str>)
        ensures
            final(self)@ == (ActivityAssetsView { large_url: view_opt_str(value), ..old(self)@ }),
    {
        self.large_url = own_opt(value);
    }

    /// The secondary image, shown as a small badge, if set.
    pub fn small_image(&self) -> (r: Option<String>)
        ensures
            view_opt(r) == self@.small_image,
    {
        copy_opt(&self.small_image)
    }

    /// Set the secondary image, or clear it with `None`.
    pub fn set_small_image(&mut self, value: Option<&str>)
        ensures
            final(self)@ == (ActivityAssetsView { small_image: view_opt_str(value), ..old(self)@ }),
    {
        self.small_image = own_opt(value);
    }

    /// Hover text for the secondary image, if set.
    pub fn small_text(&self) -> (r: Option<String>)
        ensures
            view_opt(r) == self@.small_text,
    {
        copy_opt(&self.small_text)
    }

    /// Set hover text for the secondary image, or clear it with `None`.
    pub fn set_small_text(&mut self, value: Option<&str>)
        ensures
            final(self)@ == (ActivityAssetsView { small_text: view_opt_str(value), ..old(self)@ }),
    {
        self.small_text = own_opt(value);
    }

    /// The URL opened when the secondary image is clicked, if set.
    pub fn small_url(&self) -> (r: Option<String>)
        ensures
            view_opt(r) == self@.small_url,
    {
        copy_opt(&self.small_url)
    }

    /// Set the URL opened when the secondary image is clicked, or clear it with `None`.
    pub fn set_small_url(&mut self, value: Option<&str>)
        ensures
            final(self)@ == (ActivityAssetsView { small_url: view_opt_str(value), ..old(self)@ }),
    {
        self.small_url = own_opt(value);
    }

    /// The cover image shown on invites to this activity, if set.
    pub fn invite_cover_image(&self) -> (r: Option<String>)
        ensures
            view_opt(r) == self@.invite_cover_image,
    {
        copy_opt(&self.invite_cover_image)
    }

    /// Set the invite cover image, or clear it with `None`.
    pub fn set_invite_cover_image(&mut self, value: Option<&str>)
        ensures
            final(self)@ == (ActivityAssetsView {
                invite_cover_image: view_opt_str(value),
                ..old(self)@
            }),
    {
        self.invite_cover_image = own_opt(value);
    }
}

impl Clone for ActivityAssets {
    /// An independent copy: it holds what `self` holds.
    fn clone(&self) -> (r: Self)
        ensures
            r@ == self@,
    {
        ActivityAssets {
            large_image: copy_opt(&self.large_image),
            large_text: copy_opt(&self.large_text),
            large_url: copy_opt(&self.large_url),
            small_image: copy_opt(&self.small_image),
            small_text: copy_opt(&self.small_text),
            small_url: copy_opt(&self.small_url),
            invite_cover_image: copy_opt(&self.invite_cover_image),
        }
    }
}

impl Default for ActivityAssets {
    /// Same as [`ActivityAssets::new`].
    fn default() -> (r: Self)
        ensures
            r@ == ActivityAssets::new_view(),
    {
        ActivityAssets::new()
    }
}

impl ActivityAssets {
    /// What a new value holds.
    ///
    /// These starting values are this library's own choice, the natural empty
    /// value of each field; the SDK's initializer documents none of its defaults.
    pub open spec fn new_view() -> ActivityAssetsView {
        ActivityAssetsView {
            large_image: None,
            large_text: None,
            large_url: None,
            small_image: None,
            small_text: None,
            small_url: None,
            invite_cover_image: None,
        }
    }
}

// ---------------------------------------------------------------------------
// ActivityTimestamps
// ---------------------------------------------------------------------------

/// What an [`ActivityTimestamps`] holds.
pub struct ActivityTimestampsView {
    pub start: u64,
    pub end: u64,
}

/// The start and end of an activity, in Unix milliseconds.
///
/// Setting `start` shows elapsed time; setting `end` shows time remaining.
#[derive(Debug)]
pub struct ActivityTimestamps {
    start: u64,
    end: u64,
}

impl View for ActivityTimestamps {
    type V = ActivityTimestampsView;

    closed spec fn view(&self) -> ActivityTimestampsView {
        ActivityTimestampsView { start: self.start, end: self.end }
    }
}

impl ActivityTimestamps {
    /// Create a new value with both timestamps `0` (unset).
    pub fn new() -> (r: Self)
        ensures
            r@ == (ActivityTimestampsView { start: 0, end: 0 }),
    {
        ActivityTimestamps { start: 0, end: 0 }
    }

    /// When the activity started, or `0` if unset.
    pub fn start(&self) -> (r: u64)
        ensures
            r == self@.start,
    {
        self.start
    }

    /// Set when the activity started, in milliseconds since the Unix epoch.
    ///
    /// The value is stored exactly as given. The SDK's own timestamps object
    /// additionally reads "small-ish" values as seconds and converts them to
    /// milliseconds; its documentation gives no threshold, so that conversion
    /// is not performed here and callers should pass milliseconds.
    pub fn set_start(&mut self, value: u64)
        ensures
            final(self)@ == (ActivityTimestampsView { start: value, ..old(self)@ }),
    {
        self.start = value;
    }

    /// When the activity ends, or `0` if unset.
    pub fn end(&self) -> (r: u64)
        ensures
            r == self@.end,
    {
        self.end
    }

    /// Set when the activity ends, in milliseconds since the Unix epoch.
    ///
    /// Stored exactly as given; as with [`set_start`](Self::set_start), the
    /// SDK's conversion of "small-ish" values from seconds is not performed.
    pub fn set_end(&mut self, value: u64)
        ensures
            final(self)@ == (ActivityTimestampsView { end: value, ..old(self)@ }),
    {
        self.end = value;
    }
}

impl Clone for ActivityTimestamps {
    /// An independent copy: it holds what `self` holds.
    fn clone(&self) -> (r: Self)
        ensures
            r@ == self@,
    {
        ActivityTimestamps { start: self.start, end: self.end }
    }
}

impl Default for ActivityTimestamps {
    /// Same as [`ActivityTimestamps::new`].
    fn default() -> (r: Self)
        ensures
            r@ == (ActivityTimestampsView { start: 0, end: 0 }),
    {
        ActivityTimestamps::new()
    }
}

// ---------------------------------------------------------------------------
// ActivityParty
// ---------------------------------------------------------------------------

/// What an [`ActivityParty`] holds.
pub struct ActivityPartyView {
    pub id: Seq<char>,
    pub current_size: i32,
    pub max_size: i32,
    pub privacy: ActivityPartyPrivacy,
}

/// The party a user is in, for games with group play.
#[derive(Debug)]
pub struct ActivityParty {
    id: String,
    current_size: i32,
    max_size: i32,
    privacy: ActivityPartyPrivacy,
}

impl View for ActivityParty {
    type V = ActivityPartyView;

    closed spec fn view(&self) -> ActivityPartyView {
        ActivityPartyView {
            id: self.id@,
            current_size: self.current_size,
            max_size: self.max_size,
            privacy: self.privacy,
        }
    }
}

impl ActivityParty {
    /// What a new value holds: an empty id, both sizes `0`, and private.
    ///
    /// These starting values are this library's own choice, the natural empty
    /// value of each field; the SDK's initializer documents none of its defaults.
    pub open spec fn new_view() -> ActivityPartyView {
        ActivityPartyView {
            id: Seq::empty(),
            current_size: 0,
            max_size: 0,
            privacy: ActivityPartyPrivacy::Private,
        }
    }

    /// Create a new value: an empty id, both sizes `0`, and private.
    pub fn new() -> (r: Self)
        ensures
            r@ == Self::new_view(),
    {
        ActivityParty {
            id: String::new(),
            current_size: 0,
            max_size: 0,
            privacy: ActivityPartyPrivacy::Private,
        }
    }

    /// The party's unique id.
    pub fn id(&self) -> (r: String)
        ensures
            r@ == self@.id,
    {
        self.id.clone()
    }

    /// Set the party's unique id.
    pub fn set_id(&mut self, value: &str)
        ensures
            final(self)@ == (ActivityPartyView { id: value@, ..old(self)@ }),
    {
        self.id = value.to_owned();
    }

    /// How many users are in the party.
    pub fn current_size(&self) -> (r: i32)
        ensures
            r == self@.current_size,
    {
        self.current_size
    }

    /// Set how many users are in the party.
    pub fn set_current_size(&mut self, value: i32)
        ensures
            final(self)@ == (ActivityPartyView { current_size: value, ..old(self)@ }),
    {
        self.current_size = value;
    }

    /// The maximum number of users the party can hold.
    pub fn max_size(&self) -> (r: i32)
        ensures
            r == self@.max_size,
    {
        self.max_size
    }

    /// Set the maximum number of users the party can hold.
    pub fn set_max_size(&mut self, value: i32)
        ensures
            final(self)@ == (ActivityPartyView { max_size: value, ..old(self)@ }),
    {
        self.max_size = value;
    }

    /// Whether the party is joinable by anyone or only by invitation.
    pub fn privacy(&self) -> (r: ActivityPartyPrivacy)
        ensures
            r == self@.privacy,
    {
        self.privacy
    }

    /// Set whether the party is joinable by anyone or only by invitation.
    pub fn set_privacy(&mut self, value: ActivityPartyPrivacy)
        ensures
            final(self)@ == (ActivityPartyView { privacy: value, ..old(self)@ }),
    {
        self.privacy = value;
    }
}

impl Clone for ActivityParty {
    /// An independent copy: it holds what `self` holds.
    fn clone(&self) -> (r: Self)
        ensures
            r@ == self@,
    {
        ActivityParty {
            id: self.id.clone(),
            current_size: self.current_size,
            max_size: self.max_size,
            privacy: self.privacy,
        }
    }
}

impl Default for ActivityParty {
    /// Same as [`ActivityParty::new`].
    fn default() -> (r: Self)
        ensures
            r@ == ActivityParty::new_view(),
    {
        ActivityParty::new()
    }
}

// ---------------------------------------------------------------------------
// ActivitySecrets
// ---------------------------------------------------------------------------

/// What an [`ActivitySecrets`] holds.
pub struct ActivitySecretsView {
    pub join: Seq<char>,
}

/// Secrets used to join an activity.
///
/// **Secret.** Anyone holding the join secret can join the party.
pub struct ActivitySecrets {
    join: String,
}

impl View for ActivitySecrets {
    type V = ActivitySecretsView;

    closed spec fn view(&self) -> ActivitySecretsView {
        ActivitySecretsView { join: self.join@ }
    }
}

impl ActivitySecrets {
    /// Create a new value with an empty join secret.
    pub fn new() -> (r: Self)
        ensures
            r@ == (ActivitySecretsView { join: Seq::empty() }),
    {
        ActivitySecrets { join: String::new() }
    }

    /// The secret used to join the party. **Secret.**
    pub fn join(&self) -> (r: String)
        ensures
            r@ == self@.join,
    {
        self.join.clone()
    }

    /// Set the secret used to join the party.
    pub fn set_join(&mut self, value: &str)
        ensures
            final(self)@ == (ActivitySecretsView { join: value@ }),
    {
        self.join = value.to_owned();
    }
}

impl Clone for ActivitySecrets {
    /// An independent copy: it holds what `self` holds.
    fn clone(&self) -> (r: Self)
        ensures
            r@ == self@,
    {
        ActivitySecrets { join: self.join.clone() }
    }
}

impl Default for ActivitySecrets {
    /// Same as [`ActivitySecrets::new`].
    fn default() -> (r: Self)
        ensures
            r@ == (ActivitySecretsView { join: Seq::empty() }),
    {
        ActivitySecrets::new()
    }
}

// ---------------------------------------------------------------------------
// ActivityButton
// ---------------------------------------------------------------------------

/// What an [`ActivityButton`] holds.
pub struct ActivityButtonView {
    pub label: Seq<char>,
    pub url: Seq<char>,
}

/// A custom button shown on a rich presence activity.
#[derive(Debug)]
pub struct ActivityButton {
    label: String,
    url: String,
}

impl View for ActivityButton {
    type V = ActivityButtonView;

    closed spec fn view(&self) -> ActivityButtonView {
        ActivityButtonView { label: self.label@, url: self.url@ }
    }
}

impl ActivityButton {
    /// Create a new button with an empty label and URL.
    pub fn new() -> (r: Self)
        ensures
            r@ == (ActivityButtonView { label: Seq::empty(), url: Seq::empty() }),
    {
        ActivityButton { label: String::new(), url: String::new() }
    }

    /// Create a button with the given label and URL.
    pub fn with_label_and_url(label: &str, url: &str) -> (r: Self)
        ensures
            r@ == (ActivityButtonView { label: label@, url: url@ }),
    {
        let mut button = Self::new();
        button.set_label(label);
        button.set_url(url);
        button
    }

    /// The text shown on the button.
    pub fn label(&self) -> (r: String)
        ensures
            r@ == self@.label,
    {
        self.label.clone()
    }

    /// Set the text shown on the button.
    pub fn set_label(&mut self, value: &str)
        ensures
            final(self)@ == (ActivityButtonView { label: value@, ..old(self)@ }),
    {
        self.label = value.to_owned();
    }

    /// The URL opened when the button is clicked.
    pub fn url(&self) -> (r: String)
        ensures
            r@ == self@.url,
    {
        self.url.clone()
    }

    /// Set the URL opened when the button is clicked.
    pub fn set_url(&mut self, value: &str)
        ensures
            final(self)@ == (ActivityButtonView { url: value@, ..old(self)@ }),
    {
        self.url = value.to_owned();
    }
}

impl Clone for ActivityButton {
    /// An independent copy: it holds what `self` holds.
    fn clone(&self) -> (r: Self)
        ensures
            r@ == self@,
    {
        ActivityButton { label: self.label.clone(), url: self.url.clone() }
    }
}

impl Default for ActivityButton {
    /// Same as [`ActivityButton::new`].
    fn default() -> (r: Self)
        ensures
            r@ == (ActivityButtonView { label: Seq::empty(), url: Seq::empty() }),
    {
        ActivityButton::new()
    }
}

// ---------------------------------------------------------------------------
// ActivityInvite
// ---------------------------------------------------------------------------

/// What an [`ActivityInvite`] holds.
pub struct ActivityInviteView {
    pub sender_id: u64,
    pub channel_id: u64,
    pub message_id: u64,
    pub invite_type: ActivityActionType,
    pub application_id: u64,
    pub parent_application_id: u64,
    pub party_id: Seq<char>,
    pub session_id: Seq<char>,
    pub is_valid: bool,
}

/// An invitation to join another user's activity, or a request to join one.
#[derive(Debug)]
pub struct ActivityInvite {
    sender_id: u64,
    channel_id: u64,
    message_id: u64,
    invite_type: ActivityActionType,
    application_id: u64,
    parent_application_id: u64,
    party_id: String,
    session_id: String,
    is_valid: bool,
}

impl View for ActivityInvite {
    type V = ActivityInviteView;

    closed spec fn view(&self) -> ActivityInviteView {
        ActivityInviteView {
            sender_id: self.sender_id,
            channel_id: self.channel_id,
            message_id: self.message_id,
            invite_type: self.invite_type,
            application_id: self.application_id,
            parent_application_id: self.parent_application_id,
            party_id: self.party_id@,
            session_id: self.session_id@,
            is_valid: self.is_valid,
        }
    }
}

impl ActivityInvite {
    /// What a new value holds: every id `0`, empty party and session ids, the
    /// `Invalid` action type, and not valid.
    ///
    /// These starting values are this library's own choice, the natural empty
    /// value of each field; the SDK's initializer documents none of its defaults.
    pub open spec fn new_view() -> ActivityInviteView {
        ActivityInviteView {
            sender_id: 0,
            channel_id: 0,
            message_id: 0,
            invite_type: ActivityActionType::Invalid,
            application_id: 0,
            parent_application_id: 0,
            party_id: Seq::empty(),
            session_id: Seq::empty(),
            is_valid: false,
        }
    }

    /// Create a new value; see [`new_view`](Self::new_view).
    pub fn new() -> (r: Self)
        ensures
            r@ == Self::new_view(),
    {
        ActivityInvite {
            sender_id: 0,
            channel_id: 0,
            message_id: 0,
            invite_type: ActivityActionType::Invalid,
            application_id: 0,
            parent_application_id: 0,
            party_id: String::new(),
            session_id: String::new(),
            is_valid: false,
        }
    }

    /// The user who sent the invite.
    pub fn sender_id(&self) -> (r: u64)
        ensures
            r == self@.sender_id,
    {
        self.sender_id
    }

    /// Set the user who sent the invite.
    pub fn set_sender_id(&mut self, value: u64)
        ensures
            final(self)@ == (ActivityInviteView { sender_id: value, ..old(self)@ }),
    {
        self.sender_id = value;
    }

    /// The channel the invite was sent in.
    pub fn channel_id(&self) -> (r: u64)
        ensures
            r == self@.channel_id,
    {
        self.channel_id
    }

    /// Set the channel the invite was sent in.
    pub fn set_channel_id(&mut self, value: u64)
        ensures
            final(self)@ == (ActivityInviteView { channel_id: value, ..old(self)@ }),
    {
        self.channel_id = value;
    }

    /// The message carrying the invite.
    pub fn message_id(&self) -> (r: u64)
        ensures
            r == self@.message_id,
    {
        self.message_id
    }

    /// Set the message carrying the invite.
    pub fn set_message_id(&mut self, value: u64)
        ensures
            final(self)@ == (ActivityInviteView { message_id: value, ..old(self)@ }),
    {
        self.message_id = value;
    }

    /// Whether this is an invitation to join or a request to join.
    pub fn invite_type(&self) -> (r: ActivityActionType)
        ensures
            r == self@.invite_type,
    {
        self.invite_type
    }

    /// Set whether this is an invitation to join or a request to join.
    pub fn set_invite_type(&mut self, value: ActivityActionType)
        ensures
            final(self)@ == (ActivityInviteView { invite_type: value, ..old(self)@ }),
    {
        self.invite_type = value;
    }

    /// The application the invite is for.
    pub fn application_id(&self) -> (r: u64)
        ensures
            r == self@.application_id,
    {
        self.application_id
    }

    /// Set the application the invite is for.
    pub fn set_application_id(&mut self, value: u64)
        ensures
            final(self)@ == (ActivityInviteView { application_id: value, ..old(self)@ }),
    {
        self.application_id = value;
    }

    /// The parent application of the invite's application, or `0`.
    pub fn parent_application_id(&self) -> (r: u64)
        ensures
            r == self@.parent_application_id,
    {
        self.parent_application_id
    }

    /// Set the parent application id.
    pub fn set_parent_application_id(&mut self, value: u64)
        ensures
            final(self)@ == (ActivityInviteView { parent_application_id: value, ..old(self)@ }),
    {
        self.parent_application_id = value;
    }

    /// The id of the party the invite is for.
    pub fn party_id(&self) -> (r: String)
        ensures
            r@ == self@.party_id,
    {
        self.party_id.clone()
    }

    /// Set the id of the party the invite is for.
    pub fn set_party_id(&mut self, value: &str)
        ensures
            final(self)@ == (ActivityInviteView { party_id: value@, ..old(self)@ }),
    {
        self.party_id = value.to_owned();
    }

    /// The id of the Discord session of the sender.
    pub fn session_id(&self) -> (r: String)
        ensures
            r@ == self@.session_id,
    {
        self.session_id.clone()
    }

    /// Set the sender's session id.
    pub fn set_session_id(&mut self, value: &str)
        ensures
            final(self)@ == (ActivityInviteView { session_id: value@, ..old(self)@ }),
    {
        self.session_id = value.to_owned();
    }

    /// Whether the invite can still be accepted.
    pub fn is_valid(&self) -> (r: bool)
        ensures
            r == self@.is_valid,
    {
        self.is_valid
    }

    /// Set whether the invite can still be accepted.
    pub fn set_is_valid(&mut self, value: bool)
        ensures
            final(self)@ == (ActivityInviteView { is_valid: value, ..old(self)@ }),
    {
        self.is_valid = value;
    }
}

impl Clone for ActivityInvite {
    /// An independent copy: it holds what `self` holds.
    fn clone(&self) -> (r: Self)
        ensures
            r@ == self@,
    {
        ActivityInvite {
            sender_id: self.sender_id,
            channel_id: self.channel_id,
            message_id: self.message_id,
            invite_type: self.invite_type,
            application_id: self.application_id,
            parent_application_id: self.parent_application_id,
            party_id: self.party_id.clone(),
            session_id: self.session_id.clone(),
            is_valid: self.is_valid,
        }
    }
}

impl Default for ActivityInvite {
    /// Same as [`ActivityInvite::new`].
    fn default() -> (r: Self)
        ensures
            r@ == ActivityInvite::new_view(),
    {
        ActivityInvite::new()
    }
}

impl ActivityAssets {
    /// What an optional `ActivityAssets` holds, if present.
    pub open spec fn view_of(value: Option<ActivityAssets>) -> Option<ActivityAssetsView> {
        match value {
            Some(x) => Some(x@),
            None => None,
        }
    }

    /// What an optional borrowed `ActivityAssets` holds, if present.
    pub open spec fn view_of_ref(value: Option<&ActivityAssets>) -> Option<ActivityAssetsView> {
        match value {
            Some(x) => Some(x@),
            None => None,
        }
    }
}

impl ActivityTimestamps {
    /// What an optional `ActivityTimestamps` holds, if present.
    pub open spec fn view_of(value: Option<ActivityTimestamps>) -> Option<ActivityTimestampsView> {
        match value {
            Some(x) => Some(x@),
            None => None,
        }
    }

    /// What an optional borrowed `ActivityTimestamps` holds, if present.
    pub open spec fn view_of_ref(value: Option<&ActivityTimestamps>) -> Option<ActivityTimestampsView> {
        match value {
            Some(x) => Some(x@),
            None => None,
        }
    }
}

impl ActivityParty {
    /// What an optional `ActivityParty` holds, if present.
    pub open spec fn view_of(value: Option<ActivityParty>) -> Option<ActivityPartyView> {
        match value {
            Some(x) => Some(x@),
            None => None,
        }
    }

    /// What an optional borrowed `ActivityParty` holds, if present.
    pub open spec fn view_of_ref(value: Option<&ActivityParty>) -> Option<ActivityPartyView> {
        match value {
            Some(x) => Some(x@),
            None => None,
        }
    }
}

impl ActivitySecrets {
    /// What an optional `ActivitySecrets` holds, if present.
    pub open spec fn view_of(value: Option<ActivitySecrets>) -> Option<ActivitySecretsView> {
        match value {
            Some(x) => Some(x@),
            None => None,
        }
    }

    /// What an optional borrowed `ActivitySecrets` holds, if present.
    pub open spec fn view_of_ref(value: Option<&ActivitySecrets>) -> Option<ActivitySecretsView> {
        match value {
            Some(x) => Some(x@),
            None => None,
        }
    }
}

// ---------------------------------------------------------------------------
// Activity
// ---------------------------------------------------------------------------

/// What an [`Activity`] holds.
pub struct ActivityView {
    pub name: Seq<char>,
    pub activity_type: ActivityType,
    pub status_display_type: Option<StatusDisplayType>,
    pub state: Option<Seq<char>>,
    pub state_url: Option<Seq<char>>,
    pub details: Option<Seq<char>>,
    pub details_url: Option<Seq<char>>,
    pub application_id: Option<u64>,
    pub parent_application_id: Option<u64>,
    pub assets: Option<ActivityAssetsView>,
    pub timestamps: Option<ActivityTimestampsView>,
    pub party: Option<ActivityPartyView>,
    pub secrets: Option<ActivitySecretsView>,
    pub supported_platforms: i32,
    pub buttons: Seq<ActivityButtonView>,
}

/// A rich presence activity: what a user is doing, shown on their profile.
///
/// Build one and hand it to the client to update the user's rich presence.
pub struct Activity {
    name: String,
    activity_type: ActivityType,
    status_display_type: Option<StatusDisplayType>,
    state: Option<String>,
    state_url: Option<String>,
    details: Option<String>,
    details_url: Option<String>,
    application_id: Option<u64>,
    parent_application_id: Option<u64>,
    assets: Option<ActivityAssets>,
    timestamps: Option<ActivityTimestamps>,
    party: Option<ActivityParty>,
    secrets: Option<ActivitySecrets>,
    supported_platforms: ActivityGamePlatforms,
    buttons: Vec<ActivityButton>,
}

/// What a sequence of buttons holds, in order.
pub open spec fn buttons_view(buttons: Seq<ActivityButton>) -> Seq<ActivityButtonView> {
    buttons.map_values(|b: ActivityButton| b@)
}

impl View for Activity {
    type V = ActivityView;

    closed spec fn view(&self) -> ActivityView {
        ActivityView {
            name: self.name@,
            activity_type: self.activity_type,
            status_display_type: self.status_display_type,
            state: view_opt(self.state),
            state_url: view_opt(self.state_url),
            details: view_opt(self.details),
            details_url: view_opt(self.details_url),
            application_id: self.application_id,
            parent_application_id: self.parent_application_id,
            assets: ActivityAssets::view_of(self.assets),
            timestamps: ActivityTimestamps::view_of(self.timestamps),
            party: ActivityParty::view_of(self.party),
            secrets: ActivitySecrets::view_of(self.secrets),
            supported_platforms: self.supported_platforms@,
            buttons: buttons_view(self.buttons@),
        }
    }
}

/// Independent copies of `buttons`, in the same order.
fn copy_buttons(buttons: &Vec<ActivityButton>) -> (r: Vec<ActivityButton>)
    ensures
        buttons_view(r@) == buttons_view(buttons@),
{
    let mut out: Vec<ActivityButton> = Vec::new();
    let n = buttons.len();
    for i in 0..n
        invariant
            n == buttons@.len(),
            out@.len() == i,
            forall|j: int| 0 <= j < i ==> out@[j]@ == #[trigger] buttons@[j]@,
    {
        out.push(buttons[i].clone());
    }
    assert(buttons_view(out@) =~= buttons_view(buttons@));
    out
}

impl Activity {
    /// What a new value holds: an empty name, the `Playing` type, no optional
    /// field set, no supported platform, and no button.
    ///
    /// These starting values are this library's own choice, the natural empty
    /// value of each field; the SDK's initializer documents none of its defaults.
    pub open spec fn new_view() -> ActivityView {
        ActivityView {
            name: Seq::empty(),
            activity_type: ActivityType::Playing,
            status_display_type: None,
            state: None,
            state_url: None,
            details: None,
            details_url: None,
            application_id: None,
            parent_application_id: None,
            assets: None,
            timestamps: None,
            party: None,
            secrets: None,
            supported_platforms: 0,
            buttons: Seq::empty(),
        }
    }

    /// Create a new activity; see [`new_view`](Self::new_view).
    pub fn new() -> (r: Self)
        ensures
            r@ == Self::new_view(),
    {
        let r = Activity {
            name: String::new(),
            activity_type: ActivityType::Playing,
            status_display_type: None,
            state: None,
            state_url: None,
            details: None,
            details_url: None,
            application_id: None,
            parent_application_id: None,
            assets: None,
            timestamps: None,
            party: None,
            secrets: None,
            supported_platforms: ActivityGamePlatforms::empty(),
            buttons: Vec::new(),
        };
        assert(buttons_view(r.buttons@) =~= Seq::empty());
        r
    }

    /// Add a custom button to the activity.
    ///
    /// The button is copied, so `button` stays owned by the caller.
    pub fn add_button(&mut self, button: &ActivityButton)
        ensures
            final(self)@ == (ActivityView {
                buttons: old(self)@.buttons.push(button@),
                ..old(self)@
            }),
    {
        let ghost before = self.buttons@;
        self.buttons.push(button.clone());
        assert(buttons_view(self.buttons@) =~= buttons_view(before).push(button@));
    }

    /// The activity's custom buttons, as owned copies, in the order they were added.
    pub fn buttons(&self) -> (r: Vec<ActivityButton>)
        ensures
            buttons_view(r@) == self@.buttons,
    {
        copy_buttons(&self.buttons)
    }

    /// The name of the game or application.
    pub fn name(&self) -> (r: String)
        ensures
            r@ == self@.name,
    {
        self.name.clone()
    }

    /// Set the name of the game or application.
    pub fn set_name(&mut self, value: &str)
        ensures
            final(self)@ == (ActivityView { name: value@, ..old(self)@ }),
    {
        self.name = value.to_owned();
    }

    /// The kind of activity.
    pub fn activity_type(&self) -> (r: ActivityType)
        ensures
            r == self@.activity_type,
    {
        self.activity_type
    }

    /// Set the kind of activity.
    pub fn set_activity_type(&mut self, value: ActivityType)
        ensures
            final(self)@ == (ActivityView { activity_type: value, ..old(self)@ }),
    {
        self.activity_type = value;
    }

    /// Which field is shown in the user's status, if set.
    pub fn status_display_type(&self) -> (r: Option<StatusDisplayType>)
        ensures
            r == self@.status_display_type,
    {
        self.status_display_type
    }

    /// Set which field is shown in the user's status, or clear it with `None`.
    pub fn set_status_display_type(&mut self, value: Option<StatusDisplayType>)
        ensures
            final(self)@ == (ActivityView { status_display_type: value, ..old(self)@ }),
    {
        self.status_display_type = value;
    }

    /// The player's current party status, if set.
    pub fn state(&self) -> (r: Option<String>)
        ensures
            view_opt(r) == self@.state,
    {
        copy_opt(&self.state)
    }

    /// Set the party status, or clear it with `None`.
    pub fn set_state(&mut self, value: Option<&str>)
        ensures
            final(self)@ == (ActivityView { state: view_opt_str(value), ..old(self)@ }),
    {
        self.state = own_opt(value);
    }

    /// The URL opened when the state is clicked, if set.
    pub fn state_url(&self) -> (r: Option<String>)
        ensures
            view_opt(r) == self@.state_url,
    {
        copy_opt(&self.state_url)
    }

    /// Set the state URL, or clear it with `None`.
    pub fn set_state_url(&mut self, value: Option<&str>)
        ensures
            final(self)@ == (ActivityView { state_url: view_opt_str(value), ..old(self)@ }),
    {
        self.state_url = own_opt(value);
    }

    /// What the player is currently doing, if set.
    pub fn details(&self) -> (r: Option<String>)
        ensures
            view_opt(r) == self@.details,
    {
        copy_opt(&self.details)
    }

    /// Set what the player is doing, or clear it with `None`.
    pub fn set_details(&mut self, value: Option<&str>)
        ensures
            final(self)@ == (ActivityView { details: view_opt_str(value), ..old(self)@ }),
    {
        self.details = own_opt(value);
    }

    /// The URL opened when the details are clicked, if set.
    pub fn details_url(&self) -> (r: Option<String>)
        ensures
            view_opt(r) == self@.details_url,
    {
        copy_opt(&self.details_url)
    }

    /// Set the details URL, or clear it with `None`.
    pub fn set_details_url(&mut self, value: Option<&str>)
        ensures
            final(self)@ == (ActivityView { details_url: view_opt_str(value), ..old(self)@ }),
    {
        self.details_url = own_opt(value);
    }

    /// The application the activity belongs to, if set.
    pub fn application_id(&self) -> (r: Option<u64>)
        ensures
            r == self@.application_id,
    {
        self.application_id
    }

    /// Set the application the activity belongs to, or clear it with `None`.
    pub fn set_application_id(&mut self, value: Option<u64>)
        ensures
            final(self)@ == (ActivityView { application_id: value, ..old(self)@ }),
    {
        self.application_id = value;
    }

    /// The parent of the application the activity belongs to, if set.
    pub fn parent_application_id(&self) -> (r: Option<u64>)
        ensures
            r == self@.parent_application_id,
    {
        self.parent_application_id
    }

    /// Set the parent application, or clear it with `None`.
    pub fn set_parent_application_id(&mut self, value: Option<u64>)
        ensures
            final(self)@ == (ActivityView { parent_application_id: value, ..old(self)@ }),
    {
        self.parent_application_id = value;
    }

    /// The images and hover text, as an owned copy, if set.
    pub fn assets(&self) -> (r: Option<ActivityAssets>)
        ensures
            ActivityAssets::view_of(r) == self@.assets,
    {
        match &self.assets {
            Some(v) => Some(v.clone()),
            None => None,
        }
    }

    /// Set the images and hover text, or clear them with `None`.
    ///
    /// The value is copied, so `value` stays owned by the caller.
    pub fn set_assets(&mut self, value: Option<&ActivityAssets>)
        ensures
            final(self)@ == (ActivityView { assets: ActivityAssets::view_of_ref(value), ..old(self)@ }),
    {
        self.assets = match value {
            Some(v) => Some(v.clone()),
            None => None,
        };
    }

    /// The start and end timestamps, as an owned copy, if set.
    pub fn timestamps(&self) -> (r: Option<ActivityTimestamps>)
        ensures
            ActivityTimestamps::view_of(r) == self@.timestamps,
    {
        match &self.timestamps {
            Some(v) => Some(v.clone()),
            None => None,
        }
    }

    /// Set the timestamps, or clear them with `None`.
    ///
    /// The value is copied, so `value` stays owned by the caller.
    pub fn set_timestamps(&mut self, value: Option<&ActivityTimestamps>)
        ensures
            final(self)@ == (ActivityView { timestamps: ActivityTimestamps::view_of_ref(value), ..old(self)@ }),
    {
        self.timestamps = match value {
            Some(v) => Some(v.clone()),
            None => None,
        };
    }

    /// The party, as an owned copy, if set.
    pub fn party(&self) -> (r: Option<ActivityParty>)
        ensures
            ActivityParty::view_of(r) == self@.party,
    {
        match &self.party {
            Some(v) => Some(v.clone()),
            None => None,
        }
    }

    /// Set the party, or clear it with `None`.
    ///
    /// The value is copied, so `value` stays owned by the caller.
    pub fn set_party(&mut self, value: Option<&ActivityParty>)
        ensures
            final(self)@ == (ActivityView { party: ActivityParty::view_of_ref(value), ..old(self)@ }),
    {
        self.party = match value {
            Some(v) => Some(v.clone()),
            None => None,
        };
    }

    /// The join secrets, as an owned copy, if set.
    pub fn secrets(&self) -> (r: Option<ActivitySecrets>)
        ensures
            ActivitySecrets::view_of(r) == self@.secrets,
    {
        match &self.secrets {
            Some(v) => Some(v.clone()),
            None => None,
        }
    }

    /// Set the join secrets, or clear them with `None`.
    ///
    /// The value is copied, so `value` stays owned by the caller.
    pub fn set_secrets(&mut self, value: Option<&ActivitySecrets>)
        ensures
            final(self)@ == (ActivityView { secrets: ActivitySecrets::view_of_ref(value), ..old(self)@ }),
    {
        self.secrets = match value {
            Some(v) => Some(v.clone()),
            None => None,
        };
    }

    /// The platforms an invite to this activity can be accepted on.
    pub fn supported_platforms(&self) -> (r: ActivityGamePlatforms)
        ensures
            r@ == self@.supported_platforms,
    {
        self.supported_platforms
    }

    /// Set the platforms an invite to this activity can be accepted on.
    pub fn set_supported_platforms(&mut self, value: ActivityGamePlatforms)
        ensures
            final(self)@ == (ActivityView { supported_platforms: value@, ..old(self)@ }),
    {
        self.supported_platforms = value;
    }
}

impl Default for Activity {
    /// Same as [`Activity::new`].
    fn default() -> (r: Self)
        ensures
            r@ == Activity::new_view(),
    {
        Activity::new()
    }
}

// ---------------------------------------------------------------------------
// Field-by-field equality
// ---------------------------------------------------------------------------

impl ActivityAssets {
    fn same_as(&self, other: &ActivityAssets) -> (r: bool)
        ensures
            r == (self@ == other@),
    {
        same_opt(&self.large_image, &other.large_image) && same_opt(&self.large_text, &other.large_text)
            && same_opt(&self.large_url, &other.large_url) && same_opt(&self.small_image, &other.small_image)
            && same_opt(&self.small_text, &other.small_text) && same_opt(&self.small_url, &other.small_url)
            && same_opt(&self.invite_cover_image, &other.invite_cover_image)
    }

    fn same_opt(a: &Option<ActivityAssets>, b: &Option<ActivityAssets>) -> (r: bool)
        ensures
            r == (Self::view_of(*a) == Self::view_of(*b)),
    {
        match (a, b) {
            (Some(x), Some(y)) => x.same_as(y),
            (None, None) => true,
            _ => false,
        }
    }
}

impl ActivityTimestamps {
    fn same_opt(a: &Option<ActivityTimestamps>, b: &Option<ActivityTimestamps>) -> (r: bool)
        ensures
            r == (Self::view_of(*a) == Self::view_of(*b)),
    {
        match (a, b) {
            (Some(x), Some(y)) => x.start == y.start && x.end == y.end,
            (None, None) => true,
            _ => false,
        }
    }
}

impl ActivityParty {
    fn same_opt(a: &Option<ActivityParty>, b: &Option<ActivityParty>) -> (r: bool)
        ensures
            r == (Self::view_of(*a) == Self::view_of(*b)),
    {
        match (a, b) {
            (Some(x), Some(y)) => x.id == y.id && x.current_size == y.current_size && x.max_size
                == y.max_size && x.privacy == y.privacy,
            (None, None) => true,
            _ => false,
        }
    }
}

impl ActivitySecrets {
    fn same_opt(a: &Option<ActivitySecrets>, b: &Option<ActivitySecrets>) -> (r: bool)
        ensures
            r == (Self::view_of(*a) == Self::view_of(*b)),
    {
        match (a, b) {
            (Some(x), Some(y)) => x.join == y.join,
            (None, None) => true,
            _ => false,
        }
    }
}

/// Whether two button lists hold the same buttons in the same order.
fn same_buttons(a: &Vec<ActivityButton>, b: &Vec<ActivityButton>) -> (r: bool)
    ensures
        r == (buttons_view(a@) == buttons_view(b@)),
{
    if a.len() != b.len() {
        assert(buttons_view(a@).len() != buttons_view(b@).len());
        return false;
    }
    let n = a.len();
    for i in 0..n
        invariant
            n == a@.len(),
            n == b@.len(),
            forall|j: int| 0 <= j < i ==> #[trigger] a@[j]@ == b@[j]@,
    {
        if !(a[i].label == b[i].label && a[i].url == b[i].url) {
            assert(buttons_view(a@)[i as int] != buttons_view(b@)[i as int]);
            return false;
        }
    }
    assert(buttons_view(a@) =~= buttons_view(b@));
    true
}

impl Activity {
    fn same_as(&self, other: &Activity) -> (r: bool)
        ensures
            r == (self@ == other@),
    {
        let status_same = match (self.status_display_type, other.status_display_type) {
            (Some(x), Some(y)) => x == y,
            (None, None) => true,
            _ => false,
        };
        let app_same = match (self.application_id, other.application_id) {
            (Some(x), Some(y)) => x == y,
            (None, None) => true,
            _ => false,
        };
        let parent_same = match (self.parent_application_id, other.parent_application_id) {
            (Some(x), Some(y)) => x == y,
            (None, None) => true,
            _ => false,
        };
        self.name == other.name && self.activity_type == other.activity_type && status_same
            && same_opt(&self.state, &other.state) && same_opt(&self.state_url, &other.state_url)
            && same_opt(&self.details, &other.details) && same_opt(&self.details_url, &other.details_url)
            && app_same && parent_same && ActivityAssets::same_opt(&self.assets, &other.assets)
            && ActivityTimestamps::same_opt(&self.timestamps, &other.timestamps)
            && ActivityParty::same_opt(&self.party, &other.party)
            && ActivitySecrets::same_opt(&self.secrets, &other.secrets)
            && self.supported_platforms.bits() == other.supported_platforms.bits()
            && same_buttons(&self.buttons, &other.buttons)
    }
}

/// Field-by-field comparison: two activities are equal when every field,
/// nested values and the button list included, holds the same value.
impl PartialEq for Activity {
    fn eq(&self, other: &Self) -> (r: bool) {
        self.same_as(other)
    }
}

impl vstd::std_specs::cmp::PartialEqSpecImpl for Activity {
    open spec fn obeys_eq_spec() -> bool {
        true
    }

    open spec fn eq_spec(&self, other: &Activity) -> bool {
        self@ == other@
    }
}

impl Clone for Activity {
    /// An independent copy: it holds what `self` holds, and changing either
    /// afterwards leaves the other as it was.
    fn clone(&self) -> (r: Self)
        ensures
            r@ == self@,
    {
        Activity {
            name: self.name.clone(),
            activity_type: self.activity_type,
            status_display_type: self.status_display_type,
            state: copy_opt(&self.state),
            state_url: copy_opt(&self.state_url),
            details: copy_opt(&self.details),
            details_url: copy_opt(&self.details_url),
            application_id: self.application_id,
            parent_application_id: self.parent_application_id,
            assets: match &self.assets {
                Some(v) => Some(v.clone()),
                None => None,
            },
            timestamps: match &self.timestamps {
                Some(v) => Some(v.clone()),
                None => None,
            },
            party: match &self.party {
                Some(v) => Some(v.clone()),
                None => None,
            },
            secrets: match &self.secrets {
                Some(v) => Some(v.clone()),
                None => None,
            },
            supported_platforms: self.supported_platforms,
            buttons: copy_buttons(&self.buttons),
        }
    }
}

// ---------------------------------------------------------------------------
// Laws
// ---------------------------------------------------------------------------

/// Text round-trips: after `set_name(value)`, `name()` gives back exactly
/// `value`, whatever characters it holds (embedded NULs and non-ASCII
/// included), and putting the old name back restores the old activity, so no
/// other field changed.
pub proof fn lemma_name_round_trip(before: ActivityView, value: Seq<char>)
    ensures
        (ActivityView { name: value, ..before }).name == value,
        (ActivityView { name: before.name, ..(ActivityView { name: value, ..before }) }) == before,
{
}

/// An optional text field keeps "absent" apart from "empty": after
/// `set_state(value)`, `state()` is `None` exactly when `value` is `None`, and
/// otherwise holds exactly the given text, the empty text included.
pub proof fn lemma_optional_text_round_trip(before: ActivityView, value: Option<&str>)
    ensures
        (ActivityView { state: view_opt_str(value), ..before }).state is None <==> value is None,
        value is Some ==> (ActivityView { state: view_opt_str(value), ..before }).state
            == Some(value.unwrap()@),
{
}

/// A nested value is copied in and read back whole: after
/// `set_party(Some(&party))`, `party()` holds what `party` held at the time of
/// the call, and after `set_party(None)` it is `None`.
pub proof fn lemma_nested_value_round_trip(before: ActivityView, party: &ActivityParty)
    ensures
        (ActivityView { party: ActivityParty::view_of_ref(Some(party)), ..before }).party
            == Some(party@),
        (ActivityView { party: ActivityParty::view_of_ref(None), ..before }).party is None,
{
}

/// Buttons come back in the order they were added: after `add_button(&b)`,
/// `buttons()` holds one more button than before, the earlier ones unchanged
/// and in place, followed by `b`.
pub proof fn lemma_buttons_keep_order(before: ActivityView, button: ActivityButtonView)
    ensures
        ({
            let after = ActivityView { buttons: before.buttons.push(button), ..before };
            &&& after.buttons.len() == before.buttons.len() + 1
            &&& after.buttons[before.buttons.len() as int] == button
            &&& forall|i: int| 0 <= i < before.buttons.len() ==> #[trigger] after.buttons[i]
                == before.buttons[i]
        }),
{
}

} // verus!
