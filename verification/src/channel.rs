//! Channels as the node reports them, and the identifier that names one.

use vstd::prelude::*;
use crate::money::{Bitcoin, MSATS_PER_SAT};

verus! {

/// The 32 bytes that name a channel. All zero stands for "not chosen yet".
#[derive(Clone, Copy, Debug, PartialEq, Eq)]
pub struct ChannelId {
    pub bytes: [u8; 32],
}

impl View for ChannelId {
    type V = Seq<u8>;

    open spec fn view(&self) -> Seq<u8> {
        self.bytes@
    }
}

impl ChannelId {
    /// The identifier made of `bytes`.
    pub fn from_bytes(bytes: [u8; 32]) -> (id: ChannelId)
        ensures
            id@ == bytes@,
    {
        ChannelId { bytes }
    }

    /// The identifier that names no channel.
    pub fn unset() -> (id: ChannelId)
        ensures
            id.is_unset_spec(),
    {
        ChannelId { bytes: [0u8; 32] }
    }

    /// Whether every byte is zero.
    pub open spec fn is_unset_spec(&self) -> bool {
        forall|i: int| 0 <= i < 32 ==> self@[i] == 0
    }

    /// Whether this identifier names no channel: every byte is zero.
    pub fn is_unset(&self) -> (unset: bool)
        ensures
            unset == self.is_unset_spec(),
    {
        let mut i: usize = 0;
        while i < 32
            invariant
                i <= 32,
                forall|j: int| 0 <= j < i ==> self@[j] == 0,
            decreases 32 - i,
        {
            if self.bytes[i] != 0 {
                assert(self@[i as int] != 0);
                return false;
            }
            i += 1;
        }
        true
    }

    /// Whether the two identifiers are the same, byte for byte.
    pub fn same_as(&self, other: &ChannelId) -> (same: bool)
        ensures
            same == (self@ == other@),
            same == (*self == *other),
    {
        let mut i: usize = 0;
        while i < 32
            invariant
                i <= 32,
                forall|j: int| 0 <= j < i ==> self@[j] == other@[j],
            decreases 32 - i,
        {
            if self.bytes[i] != other.bytes[i] {
                assert(self@[i as int] != other@[i as int]);
                return false;
            }
            i += 1;
        }
        assert(self@ =~= other@);
        assert(self.bytes =~= other.bytes);
        true
    }
}

/// Identifiers with the same bytes are the same identifier.
pub proof fn lemma_same_bytes_same_id(a: ChannelId, b: ChannelId)
    requires
        a@ == b@,
    ensures
        a == b,
{
    assert(a.bytes =~= b.bytes);
}

/// One channel as the node reports it.
#[derive(Clone, Copy, Debug, PartialEq, Eq)]
pub struct ChannelSnapshot {
    /// The channel's identifier.
    pub channel_id: ChannelId,
    /// The capacity of the channel, in satoshis.
    pub channel_value_sats: u64,
    /// What this side can send, in millisatoshis.
    pub outbound_capacity_msat: u64,
    /// What this side must keep in the channel, in satoshis, where the node
    /// knows it.
    pub unspendable_punishment_reserve: Option<u64>,
}

impl ChannelSnapshot {
    /// The channel named by `id_bytes`, with the figures that the node gives
    /// for it.
    pub fn new(
        id_bytes: [u8; 32],
        channel_value_sats: u64,
        outbound_capacity_msat: u64,
        unspendable_punishment_reserve: Option<u64>,
    ) -> (channel: ChannelSnapshot)
        ensures
            channel == (ChannelSnapshot {
                channel_id: ChannelId { bytes: id_bytes },
                channel_value_sats,
                outbound_capacity_msat,
                unspendable_punishment_reserve,
            }),
    {
        ChannelSnapshot {
            channel_id: ChannelId { bytes: id_bytes },
            channel_value_sats,
            outbound_capacity_msat,
            unspendable_punishment_reserve,
        }
    }

    /// This side's balance in satoshis: what it can send, in whole
    /// satoshis, and the reserve it must keep.
    pub open spec fn our_sats(&self) -> nat {
        let reserve: nat = match self.unspendable_punishment_reserve {
            Some(sats) => sats as nat,
            None => 0,
        };
        (self.outbound_capacity_msat as nat) / (MSATS_PER_SAT as nat) + reserve
    }

    /// Whether this side's balance fits into the channel's capacity, so that
    /// the rest of the capacity is the other side's.
    pub open spec fn consistent(&self) -> bool {
        self.our_sats() <= self.channel_value_sats
    }

    /// The other side's balance in satoshis: the capacity less this side's.
    pub open spec fn their_sats(&self) -> nat
        recommends
            self.consistent(),
    {
        (self.channel_value_sats - self.our_sats()) as nat
    }

    /// Splits the capacity into this side's balance and the other side's.
    /// There is no split where this side's balance exceeds the capacity.
    pub fn split(&self) -> (sides: Option<(Bitcoin, Bitcoin)>)
        ensures
            sides is Some <==> self.consistent(),
            sides matches Some((ours, theirs)) ==> ours@ == self.our_sats() && theirs@
                == self.their_sats(),
    {
        let reserve: u64 = match self.unspendable_punishment_reserve {
            Some(sats) => sats,
            None => 0,
        };
        let spendable: u64 = self.outbound_capacity_msat / MSATS_PER_SAT;
        match spendable.checked_add(reserve) {
            Some(ours) => {
                if ours <= self.channel_value_sats {
                    Some((Bitcoin { sats: ours }, Bitcoin { sats: self.channel_value_sats - ours }))
                } else {
                    None
                }
            },
            None => None,
        }
    }
}

/// Whether `channels[i]` is the channel that `id` stands for: the first one
/// reported while `id` is unset, else the first one with that identifier.
pub open spec fn is_selected(id: ChannelId, channels: Seq<ChannelSnapshot>, i: int) -> bool {
    &&& 0 <= i < channels.len()
    &&& if id.is_unset_spec() {
        i == 0
    } else {
        &&& channels[i].channel_id@ == id@
        &&& forall|j: int| 0 <= j < i ==> (#[trigger] channels[j]).channel_id@ != id@
    }
}

/// The place of the channel that `id` stands for, if one is reported.
pub open spec fn selected(id: ChannelId, channels: Seq<ChannelSnapshot>) -> Option<int> {
    if exists|i: int| is_selected(id, channels, i) {
        Some(choose|i: int| is_selected(id, channels, i))
    } else {
        None
    }
}

/// At most one channel is selected.
pub proof fn lemma_selected_is_unique(id: ChannelId, channels: Seq<ChannelSnapshot>, i: int, j: int)
    requires
        is_selected(id, channels, i),
        is_selected(id, channels, j),
    ensures
        i == j,
{
    if !id.is_unset_spec() {
        if i < j {
            assert(channels[i].channel_id@ != id@);
        } else if j < i {
            assert(channels[j].channel_id@ != id@);
        }
    }
}

/// Finds the channel that `id` stands for: the first one reported while `id`
/// is unset, else the first one with that identifier.
pub fn select_channel(id: &ChannelId, channels: &Vec<ChannelSnapshot>) -> (place: Option<usize>)
    ensures
        place matches Some(i) ==> selected(*id, channels@) == Some(i as int),
        place is None ==> selected(*id, channels@) is None,
{
    if id.is_unset() {
        if channels.len() > 0 {
            proof {
                assert(is_selected(*id, channels@, 0));
                lemma_selected_is_unique(*id, channels@, 0, selected(*id, channels@)->0);
            }
            return Some(0);
        }
        return None;
    }
    let mut i: usize = 0;
    while i < channels.len()
        invariant
            i <= channels.len(),
            !id.is_unset_spec(),
            forall|j: int| 0 <= j < i ==> (#[trigger] channels@[j]).channel_id@ != id@,
        decreases channels.len() - i,
    {
        if channels[i].channel_id.same_as(id) {
            proof {
                assert(is_selected(*id, channels@, i as int));
                lemma_selected_is_unique(*id, channels@, i as int, selected(*id, channels@)->0);
            }
            return Some(i);
        }
        i += 1;
    }
    None
}

} // verus!
