//! Channels, guilds, and the link between a lobby and a Discord channel.
//!
//! Every message on Discord is sent in a channel; [`Channel`] describes one.
//!
//! A lobby can be attached to a text channel in a Discord guild so that
//! messages sent in one appear in the other. Building that flow means listing
//! the user's guilds ([`GuildMinimal`]) and the channels inside them
//! ([`GuildChannel`]), then inspecting the link from either side —
//! [`LinkedLobby`] describes the lobby a channel points at, [`LinkedChannel`]
//! the channel a lobby points at.

use vstd::prelude::*;
use crate::enums::ChannelType;
use crate::text::{decode_lossy, sdk_text, view_bytes};

verus! {

/// What a [`LinkedLobby`] holds.
pub struct LinkedLobbyView {
    pub application_id: u64,
    pub lobby_id: u64,
}

/// The lobby a Discord channel is linked to.
#[derive(Debug, Clone, Copy, PartialEq, Eq, Hash, Structural)]
pub struct LinkedLobby {
    application_id: u64,
    lobby_id: u64,
}

impl View for LinkedLobby {
    type V = LinkedLobbyView;

    closed spec fn view(&self) -> LinkedLobbyView {
        LinkedLobbyView { application_id: self.application_id, lobby_id: self.lobby_id }
    }
}

impl LinkedLobby {
    /// Create a new value with both ids `0`.
    pub fn new() -> (r: Self)
        ensures
            r@ == (LinkedLobbyView { application_id: 0, lobby_id: 0 }),
    {
        LinkedLobby { application_id: 0, lobby_id: 0 }
    }

    /// The application that owns the lobby.
    pub fn application_id(&self) -> (r: u64)
        ensures
            r == self@.application_id,
    {
        self.application_id
    }

    /// Set the application that owns the lobby.
    pub fn set_application_id(&mut self, value: u64)
        ensures
            final(self)@ == (LinkedLobbyView { application_id: value, ..old(self)@ }),
    {
        self.application_id = value;
    }

    /// The id of the linked lobby.
    pub fn lobby_id(&self) -> (r: u64)
        ensures
            r == self@.lobby_id,
    {
        self.lobby_id
    }

    /// Set the id of the linked lobby.
    pub fn set_lobby_id(&mut self, value: u64)
        ensures
            final(self)@ == (LinkedLobbyView { lobby_id: value, ..old(self)@ }),
    {
        self.lobby_id = value;
    }
}

impl Default for LinkedLobby {
    /// Same as [`LinkedLobby::new`].
    fn default() -> (r: Self)
        ensures
            r@ == (LinkedLobbyView { application_id: 0, lobby_id: 0 }),
    {
        LinkedLobby::new()
    }
}

impl LinkedLobby {
    /// What an optional linked lobby holds, if present.
    pub open spec fn view_of(value: Option<LinkedLobby>) -> Option<LinkedLobbyView> {
        match value {
            Some(x) => Some(x@),
            None => None,
        }
    }

    /// What an optional borrowed linked lobby holds, if present.
    pub open spec fn view_of_ref(value: Option<&LinkedLobby>) -> Option<LinkedLobbyView> {
        match value {
            Some(x) => Some(x@),
            None => None,
        }
    }
}

// ---------------------------------------------------------------------------
// GuildMinimal
// ---------------------------------------------------------------------------

/// What a [`GuildMinimal`] holds.
pub struct GuildMinimalView {
    pub id: u64,
    pub name: Seq<char>,
}

/// A guild (a Discord server) the current user belongs to, containing channels
/// that may be linkable to a lobby.
///
/// The SDK hands these back when listing the user's guilds.
#[derive(Debug)]
pub struct GuildMinimal {
    id: u64,
    name: String,
}

impl View for GuildMinimal {
    type V = GuildMinimalView;

    closed spec fn view(&self) -> GuildMinimalView {
        GuildMinimalView { id: self.id, name: self.name@ }
    }
}

impl GuildMinimal {
    /// A guild with id `0` and an empty name, to be filled in by the setters.
    pub fn new() -> (r: Self)
        ensures
            r@ == (GuildMinimalView { id: 0, name: Seq::empty() }),
    {
        GuildMinimal { id: 0, name: String::new() }
    }

    /// The ID of the guild.
    pub fn id(&self) -> (r: u64)
        ensures
            r == self@.id,
    {
        self.id
    }

    /// Set the ID of the guild.
    pub fn set_id(&mut self, value: u64)
        ensures
            final(self)@ == (GuildMinimalView { id: value, ..old(self)@ }),
    {
        self.id = value;
    }

    /// The name of the guild.
    pub fn name(&self) -> (r: String)
        ensures
            r@ == self@.name,
    {
        self.name.clone()
    }

    /// Set the name of the guild.
    pub fn set_name(&mut self, value: &str)
        ensures
            final(self)@ == (GuildMinimalView { name: value@, ..old(self)@ }),
    {
        self.name = value.to_owned();
    }
}

// ---------------------------------------------------------------------------
// GuildChannel
// ---------------------------------------------------------------------------

/// What a [`GuildChannel`] holds.
pub struct GuildChannelView {
    pub id: u64,
    pub name: Seq<char>,
    pub channel_type: ChannelType,
    pub position: i32,
    pub parent_id: Option<u64>,
    pub is_linkable: bool,
    pub is_viewable_and_writeable_by_all_members: bool,
    pub linked_lobby: Option<LinkedLobbyView>,
}

/// A channel in a guild the current user belongs to, which may be linkable to
/// a lobby.
///
/// The SDK hands these back when listing a guild's channels.
#[derive(Debug)]
pub struct GuildChannel {
    id: u64,
    name: String,
    channel_type: ChannelType,
    position: i32,
    parent_id: Option<u64>,
    is_linkable: bool,
    is_viewable_and_writeable_by_all_members: bool,
    linked_lobby: Option<LinkedLobby>,
}

impl View for GuildChannel {
    type V = GuildChannelView;

    closed spec fn view(&self) -> GuildChannelView {
        GuildChannelView {
            id: self.id,
            name: self.name@,
            channel_type: self.channel_type,
            position: self.position,
            parent_id: self.parent_id,
            is_linkable: self.is_linkable,
            is_viewable_and_writeable_by_all_members: self.is_viewable_and_writeable_by_all_members,
            linked_lobby: LinkedLobby::view_of(self.linked_lobby),
        }
    }
}

impl GuildChannel {
    /// What [`new`](Self::new) gives: id `0`, an empty name, a guild text
    /// channel at position `0` with no parent, neither flag set, and no linked lobby.
    ///
    /// These starting values are this library's own choice, the natural empty
    /// value of each field; the SDK's initializer documents none of its defaults.
    pub open spec fn new_view() -> GuildChannelView {
        GuildChannelView {
            id: 0,
            name: Seq::empty(),
            channel_type: ChannelType::GuildText,
            position: 0,
            parent_id: None,
            is_linkable: false,
            is_viewable_and_writeable_by_all_members: false,
            linked_lobby: None,
        }
    }

    /// A channel to be filled in by the setters; see [`new_view`](Self::new_view).
    pub fn new() -> (r: Self)
        ensures
            r@ == Self::new_view(),
    {
        GuildChannel {
            id: 0,
            name: String::new(),
            channel_type: ChannelType::GuildText,
            position: 0,
            parent_id: None,
            is_linkable: false,
            is_viewable_and_writeable_by_all_members: false,
            linked_lobby: None,
        }
    }

    /// The ID of the channel.
    pub fn id(&self) -> (r: u64)
        ensures
            r == self@.id,
    {
        self.id
    }

    /// Set the ID of the channel.
    pub fn set_id(&mut self, value: u64)
        ensures
            final(self)@ == (GuildChannelView { id: value, ..old(self)@ }),
    {
        self.id = value;
    }

    /// The name of the channel.
    pub fn name(&self) -> (r: String)
        ensures
            r@ == self@.name,
    {
        self.name.clone()
    }

    /// Set the name of the channel.
    pub fn set_name(&mut self, value: &str)
        ensures
            final(self)@ == (GuildChannelView { name: value@, ..old(self)@ }),
    {
        self.name = value.to_owned();
    }

    /// The kind of channel this is.
    pub fn channel_type(&self) -> (r: ChannelType)
        ensures
            r == self@.channel_type,
    {
        self.channel_type
    }

    /// Set the kind of channel this is.
    pub fn set_channel_type(&mut self, value: ChannelType)
        ensures
            final(self)@ == (GuildChannelView { channel_type: value, ..old(self)@ }),
    {
        self.channel_type = value;
    }

    /// The position of the channel in the guild's channel list.
    pub fn position(&self) -> (r: i32)
        ensures
            r == self@.position,
    {
        self.position
    }

    /// Set the position of the channel in the guild's channel list.
    pub fn set_position(&mut self, value: i32)
        ensures
            final(self)@ == (GuildChannelView { position: value, ..old(self)@ }),
    {
        self.position = value;
    }

    /// The ID of the parent category channel, if any.
    pub fn parent_id(&self) -> (r: Option<u64>)
        ensures
            r == self@.parent_id,
    {
        self.parent_id
    }

    /// Set the ID of the parent category channel.
    ///
    /// `None` clears the parent.
    pub fn set_parent_id(&mut self, value: Option<u64>)
        ensures
            final(self)@ == (GuildChannelView { parent_id: value, ..old(self)@ }),
    {
        self.parent_id = value;
    }

    /// Whether the current user is able to link this channel to a lobby.
    ///
    /// This requires all of: the channel is a guild text channel, it is not
    /// marked NSFW, it is not already linked to a different lobby, and the user
    /// holds the Manage Channels, View Channel and Send Messages permissions in it.
    pub fn is_linkable(&self) -> (r: bool)
        ensures
            r == self@.is_linkable,
    {
        self.is_linkable
    }

    /// Set whether the current user is able to link this channel to a lobby.
    pub fn set_is_linkable(&mut self, value: bool)
        ensures
            final(self)@ == (GuildChannelView { is_linkable: value, ..old(self)@ }),
    {
        self.is_linkable = value;
    }

    /// Whether the channel is "fully public": every member of the guild can view
    /// it and send messages in it.
    ///
    /// There is no permission synchronisation between the game and Discord:
    /// every member of a linked lobby can read and write the channel whether or
    /// not they could on Discord. A game can use this flag to offer only fully
    /// public channels for linking, or to warn before linking a private one.
    pub fn is_viewable_and_writeable_by_all_members(&self) -> (r: bool)
        ensures
            r == self@.is_viewable_and_writeable_by_all_members,
    {
        self.is_viewable_and_writeable_by_all_members
    }

    /// Set whether the channel is viewable and writeable by all guild members.
    pub fn set_is_viewable_and_writeable_by_all_members(&mut self, value: bool)
        ensures
            final(self)@ == (GuildChannelView { is_viewable_and_writeable_by_all_members: value, ..old(self)@ }),
    {
        self.is_viewable_and_writeable_by_all_members = value;
    }

    /// Information about the lobby currently linked to this channel, if any.
    ///
    /// Discord enforces that a channel can be linked to at most one lobby.
    pub fn linked_lobby(&self) -> (r: Option<LinkedLobby>)
        ensures
            LinkedLobby::view_of(r) == self@.linked_lobby,
    {
        self.linked_lobby
    }

    /// Set the lobby linked to this channel.
    ///
    /// `None` clears the link. The argument is borrowed and copied.
    pub fn set_linked_lobby(&mut self, value: Option<&LinkedLobby>)
        ensures
            final(self)@ == (GuildChannelView {
                linked_lobby: LinkedLobby::view_of_ref(value),
                ..old(self)@
            }),
    {
        self.linked_lobby = match value {
            Some(l) => Some(*l),
            None => None,
        };
    }
}

// ---------------------------------------------------------------------------
// LinkedChannel
// ---------------------------------------------------------------------------

/// What a [`LinkedChannel`] holds.
pub struct LinkedChannelView {
    pub id: u64,
    pub name: Seq<char>,
    pub guild_id: u64,
}

/// Information about the Discord channel a lobby is linked to.
///
/// The SDK hands these back when asking a lobby for its linked channel.
#[derive(Debug)]
pub struct LinkedChannel {
    id: u64,
    name: String,
    guild_id: u64,
}

impl View for LinkedChannel {
    type V = LinkedChannelView;

    closed spec fn view(&self) -> LinkedChannelView {
        LinkedChannelView { id: self.id, name: self.name@, guild_id: self.guild_id }
    }
}

impl LinkedChannel {
    /// A linked channel with both ids `0` and an empty name, to be filled in by the setters.
    pub fn new() -> (r: Self)
        ensures
            r@ == (LinkedChannelView { id: 0, name: Seq::empty(), guild_id: 0 }),
    {
        LinkedChannel { id: 0, name: String::new(), guild_id: 0 }
    }

    /// The ID of the linked channel.
    pub fn id(&self) -> (r: u64)
        ensures
            r == self@.id,
    {
        self.id
    }

    /// Set the ID of the linked channel.
    pub fn set_id(&mut self, value: u64)
        ensures
            final(self)@ == (LinkedChannelView { id: value, ..old(self)@ }),
    {
        self.id = value;
    }

    /// The name of the linked channel.
    pub fn name(&self) -> (r: String)
        ensures
            r@ == self@.name,
    {
        self.name.clone()
    }

    /// Set the name of the linked channel.
    pub fn set_name(&mut self, value: &str)
        ensures
            final(self)@ == (LinkedChannelView { name: value@, ..old(self)@ }),
    {
        self.name = value.to_owned();
    }

    /// The ID of the guild that owns the linked channel.
    pub fn guild_id(&self) -> (r: u64)
        ensures
            r == self@.guild_id,
    {
        self.guild_id
    }

    /// Set the ID of the guild that owns the linked channel.
    pub fn set_guild_id(&mut self, value: u64)
        ensures
            final(self)@ == (LinkedChannelView { guild_id: value, ..old(self)@ }),
    {
        self.guild_id = value;
    }
}


impl Clone for GuildMinimal {
    /// An independent copy: it holds what `self` holds.
    fn clone(&self) -> (r: Self)
        ensures
            r@ == self@,
    {
        GuildMinimal {
            id: self.id,
            name: self.name.clone(),
        }
    }
}


impl Clone for GuildChannel {
    /// An independent copy: it holds what `self` holds.
    fn clone(&self) -> (r: Self)
        ensures
            r@ == self@,
    {
        GuildChannel {
            id: self.id,
            name: self.name.clone(),
            channel_type: self.channel_type,
            position: self.position,
            parent_id: self.parent_id,
            is_linkable: self.is_linkable,
            is_viewable_and_writeable_by_all_members: self.is_viewable_and_writeable_by_all_members,
            linked_lobby: self.linked_lobby,
        }
    }
}


impl Clone for LinkedChannel {
    /// An independent copy: it holds what `self` holds.
    fn clone(&self) -> (r: Self)
        ensures
            r@ == self@,
    {
        LinkedChannel {
            id: self.id,
            name: self.name.clone(),
            guild_id: self.guild_id,
        }
    }
}

// ---------------------------------------------------------------------------
// Channel
// ---------------------------------------------------------------------------

/// What a [`Channel`] holds.
pub struct ChannelView {
    pub id: u64,
    pub name: Seq<char>,
    pub channel_type: ChannelType,
    pub recipients: Seq<u64>,
}

/// A Discord channel.
///
/// A message carries the ID of the channel it was sent in, and the SDK turns
/// that ID into one of these.
pub struct Channel {
    id: u64,
    name: String,
    channel_type: ChannelType,
    recipients: Vec<u64>,
}

impl View for Channel {
    type V = ChannelView;

    closed spec fn view(&self) -> ChannelView {
        ChannelView {
            id: self.id,
            name: self.name@,
            channel_type: self.channel_type,
            recipients: self.recipients@,
        }
    }
}

/// An independent copy of a list of ids, in the same order.
fn copy_ids(ids: &Vec<u64>) -> (r: Vec<u64>)
    ensures
        r@ == ids@,
{
    let mut out: Vec<u64> = Vec::new();
    let n = ids.len();
    for i in 0..n
        invariant
            n == ids@.len(),
            out@.len() == i,
            forall|j: int| 0 <= j < i ==> out@[j] == #[trigger] ids@[j],
    {
        out.push(ids[i]);
    }
    assert(out@ =~= ids@);
    out
}

impl Channel {
    /// The channel as the SDK reports it: its id, its name as the SDK's
    /// buffer holds it (`None` for a null buffer) decoded as [`decode_lossy`]
    /// does, its raw channel type, and the user ids of its recipients.
    pub fn from_sdk(id: u64, name: Option<&[u8]>, channel_type: i32, recipients: Vec<u64>) -> (r: Self)
        ensures
            r@ == (ChannelView {
                id,
                name: sdk_text(view_bytes(name)),
                channel_type: ChannelType::of_raw(channel_type),
                recipients: recipients@,
            }),
    {
        Channel { id, name: decode_lossy(name), channel_type: ChannelType::from_raw(channel_type), recipients }
    }

    /// The ID of the channel.
    pub fn id(&self) -> (r: u64)
        ensures
            r == self@.id,
    {
        self.id
    }

    /// The name of the channel.
    ///
    /// Generally only channels in guilds have names, though Discord may generate
    /// a display name for some others.
    pub fn name(&self) -> (r: String)
        ensures
            r@ == self@.name,
    {
        self.name.clone()
    }

    /// For DMs and group DMs, the user IDs of the channel's members.
    ///
    /// Empty for every other channel type.
    pub fn recipients(&self) -> (r: Vec<u64>)
        ensures
            r@ == self@.recipients,
    {
        copy_ids(&self.recipients)
    }

    /// The kind of channel this is.
    pub fn channel_type(&self) -> (r: ChannelType)
        ensures
            r == self@.channel_type,
    {
        self.channel_type
    }
}

impl Clone for Channel {
    /// An independent copy: it holds what `self` holds.
    fn clone(&self) -> (r: Self)
        ensures
            r@ == self@,
    {
        Channel {
            id: self.id,
            name: self.name.clone(),
            channel_type: self.channel_type,
            recipients: copy_ids(&self.recipients),
        }
    }
}

} // verus!
