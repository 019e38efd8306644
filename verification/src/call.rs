//! Summaries of voice calls in lobbies.
//!
//! [`CallInfo`] is a read-only summary of a call in a lobby: who is in it and
//! what their voice states are. [`VoiceState`] reports whether one participant
//! has muted or deafened themselves.

use vstd::prelude::*;

verus! {

/// What a [`VoiceState`] holds.
pub struct VoiceStateView {
    pub self_deaf: bool,
    pub self_mute: bool,
}

/// The state of a single participant in a Discord voice call.
///
/// The main use case is to communicate whether a user has muted or deafened
/// themselves.
#[derive(Debug, Clone, Copy)]
pub struct VoiceState {
    self_deaf: bool,
    self_mute: bool,
}

impl View for VoiceState {
    type V = VoiceStateView;

    closed spec fn view(&self) -> VoiceStateView {
        VoiceStateView { self_deaf: self.self_deaf, self_mute: self.self_mute }
    }
}

impl VoiceState {
    /// The state as the SDK reports it for a participant.
    pub fn from_sdk(self_deaf: bool, self_mute: bool) -> (r: Self)
        ensures
            r@ == (VoiceStateView { self_deaf, self_mute }),
    {
        VoiceState { self_deaf, self_mute }
    }

    /// Whether the user has deafened themselves.
    ///
    /// A deafened user cannot be heard by anyone else in the call, and does not
    /// hear anyone else in the call either.
    pub fn self_deaf(&self) -> (r: bool)
        ensures
            r == self@.self_deaf,
    {
        self.self_deaf
    }

    /// Whether the user has muted themselves so that no one else in the call can
    /// hear them.
    pub fn self_mute(&self) -> (r: bool)
        ensures
            r == self@.self_mute,
    {
        self.self_mute
    }
}

/// What a [`CallInfo`] holds: the call's ids, and each participant's user id
/// with that participant's voice state, in the order the SDK listed them.
pub struct CallInfoView {
    pub channel_id: u64,
    pub guild_id: u64,
    pub participants: Seq<(u64, VoiceStateView)>,
}

/// A summary of the state of a single Discord call in a lobby.
///
/// This is the read-only counterpart to a call: it reports who is in the call
/// and what their voice states are, but cannot change anything.
pub struct CallInfo {
    channel_id: u64,
    guild_id: u64,
    participants: Vec<(u64, VoiceState)>,
}

/// The participants' entries with each voice state taken by its view.
pub open spec fn entries_view(entries: Seq<(u64, VoiceState)>) -> Seq<(u64, VoiceStateView)> {
    entries.map_values(|e: (u64, VoiceState)| (e.0, e.1@))
}

/// The voice state listed for `user_id`: that of the first entry with this
/// user id, or `None` if no entry has it.
pub open spec fn state_for(entries: Seq<(u64, VoiceStateView)>, user_id: u64) -> Option<VoiceStateView>
    decreases entries.len(),
{
    if entries.len() == 0 {
        None
    } else if entries[0].0 == user_id {
        Some(entries[0].1)
    } else {
        state_for(entries.subrange(1, entries.len() as int), user_id)
    }
}

impl View for CallInfo {
    type V = CallInfoView;

    closed spec fn view(&self) -> CallInfoView {
        CallInfoView {
            channel_id: self.channel_id,
            guild_id: self.guild_id,
            participants: entries_view(self.participants@),
        }
    }
}

impl CallInfo {
    /// The summary as the SDK reports it: the call's channel and guild ids,
    /// and every participant's user id with their voice state.
    pub fn from_sdk(channel_id: u64, guild_id: u64, participants: Vec<(u64, VoiceState)>) -> (r: Self)
        ensures
            r@ == (CallInfoView { channel_id, guild_id, participants: entries_view(participants@) }),
    {
        CallInfo { channel_id, guild_id, participants }
    }

    /// The lobby ID of the call.
    pub fn channel_id(&self) -> (r: u64)
        ensures
            r == self@.channel_id,
    {
        self.channel_id
    }

    /// The guild ID of the call.
    pub fn guild_id(&self) -> (r: u64)
        ensures
            r == self@.guild_id,
    {
        self.guild_id
    }

    /// The user IDs of the participants in the call, in order.
    pub fn participants(&self) -> (r: Vec<u64>)
        ensures
            r@ == self@.participants.map_values(|e: (u64, VoiceStateView)| e.0),
    {
        let mut out: Vec<u64> = Vec::new();
        let n = self.participants.len();
        for i in 0..n
            invariant
                n == self.participants@.len(),
                out@.len() == i,
                forall|j: int| 0 <= j < i ==> out@[j] == #[trigger] self.participants@[j].0,
        {
            out.push(self.participants[i].0);
        }
        assert(out@ =~= self@.participants.map_values(|e: (u64, VoiceStateView)| e.0));
        out
    }

    /// The voice state for a single user, so you can know whether they have
    /// muted or deafened themselves.
    ///
    /// Returns [`None`] if the user is not a participant in this call.
    pub fn voice_state(&self, user_id: u64) -> (r: Option<VoiceState>)
        ensures
            match r {
                Some(s) => state_for(self@.participants, user_id) == Some(s@),
                None => state_for(self@.participants, user_id) is None,
            },
    {
        let ghost entries = self@.participants;
        let n = self.participants.len();
        let mut i: usize = 0;
        assert(entries.subrange(0, n as int) =~= entries);
        while i < n
            invariant
                n == self.participants@.len(),
                entries == entries_view(self.participants@),
                0 <= i <= n,
                state_for(entries, user_id) == state_for(entries.subrange(i as int, n as int), user_id),
            decreases n - i,
        {
            let ghost rest = entries.subrange(i as int, n as int);
            assert(rest[0] == entries[i as int]);
            if self.participants[i].0 == user_id {
                return Some(self.participants[i].1);
            }
            assert(rest.subrange(1, rest.len() as int) =~= entries.subrange(i + 1, n as int));
            i = i + 1;
        }
        assert(entries.subrange(n as int, n as int).len() == 0);
        None
    }
}

impl Clone for CallInfo {
    /// An independent copy: it holds what `self` holds.
    fn clone(&self) -> (r: Self)
        ensures
            r@ == self@,
    {
        let mut out: Vec<(u64, VoiceState)> = Vec::new();
        let n = self.participants.len();
        for i in 0..n
            invariant
                n == self.participants@.len(),
                out@.len() == i,
                forall|j: int| 0 <= j < i ==> out@[j] == #[trigger] self.participants@[j],
        {
            out.push(self.participants[i]);
        }
        assert(out@ =~= self.participants@);
        CallInfo { channel_id: self.channel_id, guild_id: self.guild_id, participants: out }
    }
}

} // verus!
