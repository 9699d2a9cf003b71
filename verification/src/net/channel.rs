//! Channels: connections with an identity.

use std::sync::Arc;

use cheetah_string::CheetahString;
use uuid::Uuid;
use vstd::prelude::*;

use crate::net::address::SocketAddress;

verus! {

/// Immutable strings of the `cheetah_string` crate.
#[verifier::external_type_specification]
#[verifier::external_body]
pub struct ExCheetahString(CheetahString);

/// What a [`Channel`] is known as.
pub type ChannelId = CheetahString;

/// The characters that a string of the `cheetah_string` crate holds.
pub uninterp spec fn cheetah_text(string: CheetahString) -> Seq<char>;

/// Calls `CheetahString::from` on a `String`, which keeps the characters.
#[verifier::external_body]
fn cheetah_from_string(text: String) -> (string: CheetahString)
    ensures
        cheetah_text(string) == text@,
{
    CheetahString::from(text)
}

/// Calls `CheetahString::as_str`, which borrows the characters.
#[verifier::external_body]
fn cheetah_as_str(string: &CheetahString) -> (text: &str)
    ensures
        text@ == cheetah_text(*string),
{
    string.as_str()
}

/// Calls the `clone` of `CheetahString`, which keeps the characters.
#[verifier::external_body]
fn cheetah_clone(string: &CheetahString) -> (copy: CheetahString)
    ensures
        cheetah_text(copy) == cheetah_text(*string),
{
    string.clone()
}

/// Calls the `==` of `CheetahString`, which compares the characters.
#[verifier::external_body]
fn cheetah_equal(left: &CheetahString, right: &CheetahString) -> (equal: bool)
    ensures
        equal == (cheetah_text(*left) == cheetah_text(*right)),
{
    left == right
}

/// Whether `character` is a hexadecimal digit in lower case.
pub open spec fn is_lower_hex(character: char) -> bool {
    '0' <= character <= '9' || 'a' <= character <= 'f'
}

/// Whether `text` is a random unique identifier in its usual form: groups of
/// eight, four, four, four and twelve digits, with the version and the variant
/// at the head of the third and the fourth.
pub open spec fn is_random_uuid(text: Seq<char>) -> bool {
    &&& text.len() == 36
    &&& forall|i: int|
        #![trigger text[i]]
        0 <= i < 36 ==> if i == 8 || i == 13 || i == 18 || i == 23 {
            text[i] == '-'
        } else {
            is_lower_hex(text[i])
        }
    &&& text[14] == '4'
    &&& text[19] == '8' || text[19] == '9' || text[19] == 'a' || text[19] == 'b'
}

/// Calls `Uuid::new_v4` and prints the identifier. Its digits are random but
/// for the version and the variant, and nothing else is claimed of them. It
/// panics on a system that has no source of randomness, which no argument
/// can rule out.
#[verifier::external_body]
fn random_uuid() -> (text: String)
    ensures
        is_random_uuid(text@),
{
    Uuid::new_v4().to_string()
}

/// A communication endpoint: shared channel state `I` with an identity.
///
/// Clones share the state. Two channels are equal if their addresses and their
/// identifiers are, whatever state they share.
pub struct Channel<I> {
    inner: Arc<I>,
    local_address: SocketAddress,
    remote_address: SocketAddress,
    channel_id: ChannelId,
}

/// What a [`Channel`] is told by.
pub struct ChannelIdentity {
    pub local_address: SocketAddress,
    pub remote_address: SocketAddress,
    pub channel_id: Seq<char>,
}

impl ChannelIdentity {
    /// What a hasher is fed with for a channel of this identity.
    pub open spec fn hashed(self) -> (SocketAddress, SocketAddress, Seq<char>) {
        (self.local_address, self.remote_address, self.channel_id)
    }
}

impl<I> View for Channel<I> {
    type V = ChannelIdentity;

    closed spec fn view(&self) -> ChannelIdentity {
        ChannelIdentity {
            local_address: self.local_address,
            remote_address: self.remote_address,
            channel_id: cheetah_text(self.channel_id),
        }
    }
}

impl<I> Channel<I> {
    /// The state that the clones of the channel share.
    pub closed spec fn shared(&self) -> I {
        *self.inner
    }

    /// A channel with a random identifier.
    pub fn new(
        inner: Arc<I>,
        local_address: SocketAddress,
        remote_address: SocketAddress,
    ) -> (channel: Self)
        ensures
            channel.shared() == *inner,
            channel@.local_address == local_address,
            channel@.remote_address == remote_address,
            is_random_uuid(channel@.channel_id),
    {
        let channel_id = random_uuid();
        Channel::with_id(inner, local_address, remote_address, channel_id)
    }

    /// A channel that is known as `channel_id`.
    pub fn with_id(
        inner: Arc<I>,
        local_address: SocketAddress,
        remote_address: SocketAddress,
        channel_id: String,
    ) -> (channel: Self)
        ensures
            channel.shared() == *inner,
            channel@ == (ChannelIdentity {
                local_address,
                remote_address,
                channel_id: channel_id@,
            }),
    {
        Channel { inner, local_address, remote_address, channel_id: cheetah_from_string(channel_id) }
    }

    /// Updates the local address.
    pub fn set_local_address(&mut self, local_address: SocketAddress)
        ensures
            final(self)@ == (ChannelIdentity { local_address, ..old(self)@ }),
            final(self).shared() == old(self).shared(),
    {
        self.local_address = local_address;
    }

    /// Updates the address of the peer.
    pub fn set_remote_address(&mut self, remote_address: SocketAddress)
        ensures
            final(self)@ == (ChannelIdentity { remote_address, ..old(self)@ }),
            final(self).shared() == old(self).shared(),
    {
        self.remote_address = remote_address;
    }

    /// Updates the identifier. A map or set that holds the channel no longer finds it.
    pub fn set_channel_id(&mut self, channel_id: ChannelId)
        ensures
            final(self)@ == (ChannelIdentity {
                channel_id: cheetah_text(channel_id),
                ..old(self)@
            }),
            final(self).shared() == old(self).shared(),
    {
        self.channel_id = channel_id;
    }

    /// The local address.
    pub fn local_address(&self) -> (local_address: SocketAddress)
        ensures
            local_address == self@.local_address,
    {
        self.local_address
    }

    /// The address of the peer.
    pub fn remote_address(&self) -> (remote_address: SocketAddress)
        ensures
            remote_address == self@.remote_address,
    {
        self.remote_address
    }

    /// The identifier.
    pub fn channel_id(&self) -> (channel_id: &str)
        ensures
            channel_id@ == self@.channel_id,
    {
        cheetah_as_str(&self.channel_id)
    }

    /// An owned copy of the identifier.
    pub fn channel_id_owned(&self) -> (channel_id: ChannelId)
        ensures
            cheetah_text(channel_id) == self@.channel_id,
    {
        cheetah_clone(&self.channel_id)
    }

    /// The state that the clones of the channel share.
    pub fn channel_inner(&self) -> (inner: &I)
        ensures
            *inner == self.shared(),
    {
        &self.inner
    }

    /// The same as [`Channel::channel_inner`]: shared state cannot be borrowed mutably.
    pub fn channel_inner_mut(&self) -> (inner: &I)
        ensures
            *inner == self.shared(),
    {
        &self.inner
    }

    /// What a hasher is fed with, in this order, so that a map or set finds the
    /// channel by its identity.
    pub fn hash_key(&self) -> (key: (SocketAddress, SocketAddress, &str))
        ensures
            (key.0, key.1, key.2@) == self@.hashed(),
    {
        (self.local_address, self.remote_address, self.channel_id())
    }

    /// The channel in words, given its addresses in words.
    pub fn describe(&self, local_address: &str, remote_address: &str) -> (text: String)
        ensures
            text@ == "Channel { local_address: "@ + local_address@ + ", remote_address: "@
                + remote_address@ + ", channel_id: "@ + self@.channel_id + " }"@,
    {
        let mut text = crate::error::prefixed("Channel { local_address: ", local_address);
        text.append(", remote_address: ");
        text.append(remote_address);
        text.append(", channel_id: ");
        text.append(self.channel_id());
        text.append(" }");
        text
    }
}

impl<I> Clone for Channel<I> {
    fn clone(&self) -> (channel: Self)
        ensures
            channel@ == self@,
            channel.shared() == self.shared(),
    {
        Channel {
            inner: self.inner.clone(),
            local_address: self.local_address,
            remote_address: self.remote_address,
            channel_id: cheetah_clone(&self.channel_id),
        }
    }
}

impl<I> PartialEq for Channel<I> {
    fn eq(&self, other: &Self) -> (equal: bool) {
        self.local_address == other.local_address && self.remote_address == other.remote_address
            && cheetah_equal(&self.channel_id, &other.channel_id)
    }
}

impl<I> vstd::std_specs::cmp::PartialEqSpecImpl for Channel<I> {
    open spec fn obeys_eq_spec() -> bool {
        true
    }

    open spec fn eq_spec(&self, other: &Self) -> bool {
        self@ == other@
    }
}

impl<I> Eq for Channel<I> {

}

} // verus!
