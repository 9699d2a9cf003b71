use std::collections::hash_map::DefaultHasher;
use std::hash::{Hash, Hasher};
use std::sync::Arc;

use cheetah_string::CheetahString;
use rocketmq_remoting::net::address::SocketAddress;
use rocketmq_remoting::net::channel::{Channel, ChannelId};

fn local() -> SocketAddress {
    SocketAddress::V4 { ipv4: 0x7f00_0001, port: 40_000 }
}

fn remote() -> SocketAddress {
    SocketAddress::V6 { ipv6: 1, port: 10_911, flowinfo: 0, scope_id: 0 }
}

#[test]
fn new_channel_has_a_random_identifier() {
    let first = Channel::new(Arc::new(1), local(), remote());
    let second = Channel::new(Arc::new(1), local(), remote());
    let id = first.channel_id();
    assert_eq!(id.len(), 36);
    for (i, character) in id.chars().enumerate() {
        match i {
            8 | 13 | 18 | 23 => assert_eq!(character, '-'),
            14 => assert_eq!(character, '4'),
            19 => assert!("89ab".contains(character)),
            _ => assert!("0123456789abcdef".contains(character)),
        }
    }
    assert_ne!(first.channel_id(), second.channel_id());
    assert!(first != second);
    assert_eq!(first.local_address(), local());
    assert_eq!(first.remote_address(), remote());
}

#[test]
fn clones_share_their_state_and_are_equal() {
    let channel = Channel::with_id(Arc::new(41), local(), remote(), "c-1".to_string());
    let clone = channel.clone();
    assert!(channel == clone);
    assert!(std::ptr::eq(channel.channel_inner(), clone.channel_inner()));
    assert!(std::ptr::eq(channel.channel_inner(), channel.channel_inner_mut()));
    assert_eq!(*clone.channel_inner(), 41);
}

#[test]
fn channels_are_equal_by_identity() {
    let channel = Channel::with_id(Arc::new(1), local(), remote(), "c-1".to_string());
    let same = Channel::with_id(Arc::new(2), local(), remote(), "c-1".to_string());
    assert!(channel == same);
    assert!(same == channel);

    let mut other = same.clone();
    other.set_channel_id(CheetahString::from("c-2".to_string()));
    assert!(channel != other);
    assert_eq!(other.channel_id(), "c-2");

    let mut other = same.clone();
    other.set_local_address(remote());
    assert!(channel != other);
    assert_eq!(other.local_address(), remote());

    let mut other = same.clone();
    other.set_remote_address(local());
    assert!(channel != other);
    assert_eq!(other.remote_address(), local());
}

#[test]
fn equal_channels_hash_alike() {
    let digest = |channel: &Channel<i32>| {
        let mut hasher = DefaultHasher::new();
        channel.hash_key().hash(&mut hasher);
        hasher.finish()
    };
    let channel = Channel::with_id(Arc::new(1), local(), remote(), "c-1".to_string());
    let same = Channel::with_id(Arc::new(2), local(), remote(), "c-1".to_string());
    assert_eq!(channel.hash_key(), (local(), remote(), "c-1"));
    assert!(channel == same);
    assert_eq!(digest(&channel), digest(&same));
    assert_eq!(digest(&channel), digest(&channel.clone()));

    let mut other = same.clone();
    other.set_channel_id(ChannelId::from("c-2".to_string()));
    assert_ne!(channel.hash_key(), other.hash_key());
}

#[test]
fn identifier_is_handed_out_as_it_is() {
    let long = "an identifier that does not fit the inline storage of the string".to_string();
    let channel = Channel::with_id(Arc::new(()), local(), remote(), long.clone());
    assert_eq!(channel.channel_id(), long);
    assert_eq!(channel.channel_id_owned().as_str(), long);
}

#[test]
fn channel_is_described_in_words() {
    let channel = Channel::with_id(Arc::new(()), local(), remote(), "c-1".to_string());
    assert_eq!(
        channel.describe("127.0.0.1:40000", "[::1]:10911"),
        "Channel { local_address: 127.0.0.1:40000, remote_address: [::1]:10911, channel_id: c-1 }"
    );
}
