//! Event channels: a numbered, ordered inbox of messages from the host, and
//! the marker that registers a channel with the host inside a request.
use vstd::prelude::*;

use std::collections::VecDeque;

use crate::wire::{field_of, find_field, record_model, Datum, Scalar};

verus! {

/// One event from the host: its sequence id and its payload.
#[derive(Debug, Clone)]
pub struct Message<T> {
    id: usize,
    message: T,
}

impl<T> View for Message<T> {
    type V = (usize, T);

    closed spec fn view(&self) -> (usize, T) {
        (self.id, self.message)
    }
}

impl<T> Message<T> {
    /// A message with the given sequence id and payload.
    pub fn new(id: usize, message: T) -> (r: Message<T>)
        ensures
            r@ == (id, message),
    {
        Message { id, message }
    }

    /// The sequence id that the host gave this message.
    pub fn id(&self) -> (r: usize)
        ensures
            r == self@.0,
    {
        self.id
    }

    /// The payload.
    pub fn message(&self) -> (r: &T)
        ensures
            *r == self@.1,
    {
        &self.message
    }
}

/// A channel: its identifier and the messages that arrived and were not yet
/// taken, oldest first.
#[derive(Debug)]
pub struct Channel<T> {
    id: usize,
    inbox: VecDeque<T>,
}

impl<T> View for Channel<T> {
    type V = (nat, Seq<T>);

    closed spec fn view(&self) -> (nat, Seq<T>) {
        (self.id as nat, self.inbox@)
    }
}

impl<T> Channel<T> {
    /// An empty channel with the given identifier.
    pub fn new(id: usize) -> (r: Channel<T>)
        ensures
            r@ == (id as nat, Seq::<T>::empty()),
    {
        Channel { id, inbox: VecDeque::new() }
    }

    /// The channel's identifier.
    pub fn id(&self) -> (r: usize)
        ensures
            r as nat == self@.0,
    {
        self.id
    }

    /// Hands a message that the host emitted to the channel: it goes to the
    /// back of the inbox.
    pub fn deliver(&mut self, message: T)
        ensures
            final(self)@ == (old(self)@.0, old(self)@.1.push(message)),
    {
        self.inbox.push_back(message);
    }

    /// Takes the oldest message that was not yet taken, if there is one.
    pub fn next_message(&mut self) -> (r: Option<T>)
        ensures
            old(self)@.1.len() == 0 ==> r is None && final(self)@ == old(self)@,
            old(self)@.1.len() > 0 ==> r == Some(old(self)@.1[0]) && final(self)@ == (
                old(self)@.0,
                old(self)@.1.drop_first(),
            ),
    {
        let r = self.inbox.pop_front();
        proof {
            if old(self)@.1.len() > 0 {
                assert(old(self)@.1.drop_first() =~= old(self)@.1.subrange(1, old(self)@.1.len() as int));
            }
        }
        r
    }

    /// Hands each of `messages` to the channel, in order.
    pub fn deliver_all(&mut self, messages: Vec<T>)
        ensures
            final(self)@ == (old(self)@.0, deliver_all(old(self)@.1, messages@)),
    {
        let mut messages = messages;
        let ghost all = messages@;
        let total: usize = messages.len();
        assert(all.subrange(0, all.len() as int) =~= all);
        proof {
            lemma_delivery_order(self@.1, all);
        }
        let ghost start = self@.1;
        let mut k: usize = 0;
        while messages.len() > 0
            invariant
                self@.0 == old(self)@.0,
                start == old(self)@.1,
                k + messages@.len() == all.len(),
                all.len() == total,
                messages@ == all.subrange(k as int, all.len() as int),
                self@.1 == start + all.subrange(0, k as int),
            decreases messages@.len(),
        {
            let m = messages.remove(0);
            self.deliver(m);
            assert(start + all.subrange(0, k + 1) =~= (start + all.subrange(0, k as int)).push(all[k as int]));
            k = k + 1;
        }
        proof {
            lemma_delivery_order(start, all);
            assert(all.subrange(0, k as int) =~= all);
        }
    }

    /// Takes every waiting message, oldest first.
    pub fn drain(&mut self) -> (r: Vec<T>)
        ensures
            r@ == old(self)@.1,
            final(self)@ == (old(self)@.0, Seq::<T>::empty()),
    {
        let mut r: Vec<T> = Vec::new();
        while self.inbox.len() > 0
            invariant
                self@.0 == old(self)@.0,
                r@ + self@.1 == old(self)@.1,
            decreases self@.1.len(),
        {
            let ghost before = self@.1;
            let m = self.next_message().unwrap();
            r.push(m);
            assert(r@ + self@.1 =~= old(self)@.1) by {
                assert(before =~= seq![m] + before.drop_first());
            }
        }
        assert(r@ =~= old(self)@.1);
        assert(self@.1 =~= Seq::<T>::empty());
        r
    }

    /// The number of messages waiting.
    pub fn pending(&self) -> (r: usize)
        ensures
            r == self@.1.len(),
    {
        self.inbox.len()
    }
}

/// Hands out channel identifiers, each one once.
#[derive(Debug)]
pub struct ChannelIds {
    next: usize,
}

impl ChannelIds {
    /// Every identifier below this one has been handed out.
    pub closed spec fn next_id(&self) -> nat {
        self.next as nat
    }

    /// An allocator that has handed out nothing.
    pub fn new() -> (r: ChannelIds)
        ensures
            r.next_id() == 0,
    {
        ChannelIds { next: 0 }
    }

    /// A fresh, empty channel whose identifier no earlier call returned; `None`
    /// once the identifiers are used up.
    pub fn create<T>(&mut self) -> (r: Option<Channel<T>>)
        ensures
            old(self).next_id() < usize::MAX ==> r is Some && r->0@ == (
                old(self).next_id(),
                Seq::<T>::empty(),
            ) && final(self).next_id() == old(self).next_id() + 1,
            old(self).next_id() >= usize::MAX ==> r is None && final(self).next_id()
                == old(self).next_id(),
    {
        if self.next < usize::MAX {
            let id = self.next;
            self.next = self.next + 1;
            Some(Channel::new(id))
        } else {
            None
        }
    }
}

/// The reserved key that marks a record as a live channel reference.
pub open spec fn marker_key() -> Seq<char> {
    "__TAURI_CHANNEL_MARKER__"@
}

/// The record that a channel reference with identifier `id` is sent as.
pub open spec fn marker_record(id: nat) -> Seq<(Seq<char>, Datum)> {
    seq![(marker_key(), Datum::Bool(true)), ("id"@, Datum::Int(id))]
}

/// Reads a channel reference: only a record whose reserved key holds `true`
/// and whose `id` is a number is one.
pub open spec fn decode_marker(m: Seq<(Seq<char>, Datum)>) -> Option<nat> {
    match (field_of(m, marker_key()), field_of(m, "id"@)) {
        (Some(Datum::Bool(true)), Some(Datum::Int(n))) => Some(n),
        _ => None,
    }
}

/// A reference to a channel, as embedded in a creation request.
#[derive(Debug, Clone, Copy, PartialEq, Eq)]
pub struct ChannelId {
    pub id: usize,
}

impl ChannelId {
    /// The reference to `channel`.
    pub fn from<T>(channel: &Channel<T>) -> (r: ChannelId)
        ensures
            r.id as nat == channel@.0,
    {
        ChannelId { id: channel.id() }
    }

    /// The marker record this reference is sent as.
    pub fn serialize(&self) -> (r: Vec<(String, Scalar)>)
        ensures
            record_model(r@) == marker_record(self.id as nat),
    {
        let mut r: Vec<(String, Scalar)> = Vec::new();
        r.push(("__TAURI_CHANNEL_MARKER__".to_owned(), Scalar::Bool(true)));
        r.push(("id".to_owned(), Scalar::Int(self.id)));
        assert(record_model(r@) =~= marker_record(self.id as nat));
        r
    }

    /// Reads a channel reference from a record, as the transport does.
    pub fn decode(fields: &Vec<(String, Scalar)>) -> (r: Option<ChannelId>)
        ensures
            match r {
                Some(c) => decode_marker(record_model(fields@)) == Some(c.id as nat),
                None => decode_marker(record_model(fields@)) is None,
            },
    {
        let flag = find_field(fields, &"__TAURI_CHANNEL_MARKER__".to_owned());
        let id = find_field(fields, &"id".to_owned());
        match (flag, id) {
            (Some(Scalar::Bool(true)), Some(Scalar::Int(n))) => Some(ChannelId { id: *n }),
            _ => None,
        }
    }
}

/// A channel reference sent for identifier `n` holds the reserved key set to
/// `true` and `id == n`, and reads back as `n`.
pub proof fn lemma_marker_round_trip(n: nat)
    ensures
        field_of(marker_record(n), marker_key()) == Some(Datum::Bool(true)),
        field_of(marker_record(n), "id"@) == Some(Datum::Int(n)),
        decode_marker(marker_record(n)) == Some(n),
{
    reveal_strlit("__TAURI_CHANNEL_MARKER__");
    reveal_strlit("id");
    reveal_with_fuel(field_of, 3);
    assert(marker_key().len() == 24);
    assert("id"@.len() == 2);
    assert(marker_key() != "id"@);
    let m = marker_record(n);
    assert(m.drop_first() =~= seq![("id"@, Datum::Int(n))]);
}

/// A record whose reserved key is missing, or holds anything but `true`, is
/// never read as a channel reference.
pub proof fn lemma_marker_needs_sentinel(m: Seq<(Seq<char>, Datum)>)
    requires
        field_of(m, marker_key()) != Some(Datum::Bool(true)),
    ensures
        decode_marker(m) is None,
{
}

/// The inbox after the messages `emitted` reach it one by one, in order.
pub open spec fn deliver_all<T>(inbox: Seq<T>, emitted: Seq<T>) -> Seq<T>
    decreases emitted.len(),
{
    if emitted.len() == 0 {
        inbox
    } else {
        deliver_all(inbox.push(emitted[0]), emitted.drop_first())
    }
}

/// Delivery keeps the order of emission: after the messages `emitted` reach a
/// channel one by one, its inbox holds what was waiting, then `emitted` in the
/// order the host emitted them, so that they are taken in that order.
pub proof fn lemma_delivery_order<T>(inbox: Seq<T>, emitted: Seq<T>)
    ensures
        deliver_all(inbox, emitted) == inbox + emitted,
    decreases emitted.len(),
{
    if emitted.len() == 0 {
        assert(inbox + emitted =~= inbox);
    } else {
        lemma_delivery_order(inbox.push(emitted[0]), emitted.drop_first());
        assert(inbox.push(emitted[0]) + emitted.drop_first() =~= inbox + emitted);
    }
}

} // verus!
