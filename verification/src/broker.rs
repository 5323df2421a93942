//! The broadcast bus's registry: which clients a broadcast goes out to.
//!
//! The bus has one queue that every session writes to, and one queue per
//! client that a session reads from. A multiplexer takes each packet off the
//! first and puts a copy on each of the others. Who is registered is decided
//! here; moving the packets is the multiplexer's work.

use crate::mc::proto::Packet;
use dashmap::DashMap;
use std::hash::RandomState;
use tokio::sync::mpsc::{Receiver, Sender};
use vstd::prelude::*;

verus! {

/// No more packets than this wait in one queue.
pub const QUEUE_CAPACITY: usize = 128;

/// `tokio::sync::mpsc::Sender`, the writing end of a bounded queue, taken
/// as it is.
#[verifier::external_type_specification]
#[verifier::external_body]
#[verifier::reject_recursive_types(T)]
pub struct ExMpscSender<T>(Sender<T>);

/// `tokio::sync::mpsc::Receiver`, the reading end of a bounded queue, taken
/// as it is.
#[verifier::external_type_specification]
#[verifier::external_body]
#[verifier::reject_recursive_types(T)]
pub struct ExMpscReceiver<T>(Receiver<T>);

/// A concurrent map from client ids to the writing ends of their queues.
pub type ClientMap = DashMap<i32, Sender<Packet>, RandomState>;

/// The ids that a map of clients holds.
pub uninterp spec fn spec_client_ids(map: ClientMap) -> Set<i32>;

/// The set without ids.
pub open spec fn spec_no_clients() -> Set<i32> {
    Set::empty()
}

/// `tokio::sync::mpsc::channel`: the two ends of a new queue with room for
/// `capacity` packets. It panics where the capacity is zero or above what
/// its semaphore counts, which is more than 2^28.
#[verifier::external_body]
fn packet_queue(capacity: usize) -> (ends: (Sender<Packet>, Receiver<Packet>))
    requires
        0 < capacity <= 0x1000_0000,
{
    tokio::sync::mpsc::channel(capacity)
}

/// `Clone` of `tokio::sync::mpsc::Sender`: one more writing end of the same
/// queue.
#[verifier::external_body]
fn sender_clone(queue: &Sender<Packet>) -> (copy: Sender<Packet>) {
    queue.clone()
}

/// `DashMap::new`: a map without entries.
#[verifier::external_body]
fn client_map_new() -> (clients: ClientMap)
    ensures
        spec_client_ids(clients) == spec_no_clients(),
{
    DashMap::new()
}

/// `DashMap::insert`: puts `queue` under `id`, in place of what was there.
#[verifier::external_body]
fn client_map_insert(clients: &mut ClientMap, id: i32, queue: Sender<Packet>)
    ensures
        spec_client_ids(*final(clients)) == spec_client_ids(*old(clients)).insert(id),
{
    clients.insert(id, queue);
}

/// `DashMap::remove`: takes out what is under `id`, and says whether there
/// was anything.
#[verifier::external_body]
fn client_map_remove(clients: &mut ClientMap, id: i32) -> (found: bool)
    ensures
        spec_client_ids(*final(clients)) == spec_client_ids(*old(clients)).remove(id),
        found == spec_client_ids(*old(clients)).contains(id),
{
    clients.remove(&id).is_some()
}

/// `DashMap::contains_key`: whether there is an entry under `id`.
#[verifier::external_body]
fn client_map_contains(clients: &ClientMap, id: i32) -> (found: bool)
    ensures
        found == spec_client_ids(*clients).contains(id),
{
    clients.contains_key(&id)
}

/// `DashMap::iter`, collected: every id once with a writing end of its
/// queue, in no particular order.
#[verifier::external_body]
fn client_map_queues(clients: &ClientMap) -> (queues: Vec<(i32, Sender<Packet>)>)
    ensures
        spec_queue_ids(queues@).no_duplicates(),
        spec_queue_ids(queues@).to_set() == spec_client_ids(*clients),
{
    clients.iter().map(|entry| (*entry.key(), entry.value().clone())).collect()
}

/// The ids of a list of queues.
pub open spec fn spec_queue_ids(queues: Seq<(i32, Sender<Packet>)>) -> Seq<i32> {
    queues.map_values(|q: (i32, Sender<Packet>)| q.0)
}

/// The registry of a broadcast bus.
pub struct PacketBroker {
    broadcast_tx: Sender<Packet>,
    clients: ClientMap,
}

impl PacketBroker {
    /// The ids of the clients that a broadcast goes out to.
    pub closed spec fn registered(&self) -> Set<i32> {
        spec_client_ids(self.clients)
    }

    /// A bus without clients, and the reading end of the queue that the
    /// sessions write to.
    pub fn new() -> (made: (PacketBroker, Receiver<Packet>))
        ensures
            made.0.registered() == Set::<i32>::empty(),
    {
        let (broadcast_tx, broadcast_rx) = packet_queue(QUEUE_CAPACITY);
        (PacketBroker { broadcast_tx, clients: client_map_new() }, broadcast_rx)
    }

    /// A writing end of the queue that the sessions write to.
    pub fn new_broadcast(&self) -> (queue: Sender<Packet>) {
        sender_clone(&self.broadcast_tx)
    }

    /// Registers the client `id` with a queue of its own, and hands out the
    /// reading end of that queue. A client that was registered under `id`
    /// before is dropped.
    pub fn add_client(&mut self, id: i32) -> (queue: Receiver<Packet>)
        ensures
            final(self).registered() == old(self).registered().insert(id),
    {
        let (tx, rx) = packet_queue(QUEUE_CAPACITY);
        client_map_insert(&mut self.clients, id, tx);
        rx
    }

    /// Drops the registration of the client `id`, and says whether there
    /// was one.
    pub fn remove_client(&mut self, id: i32) -> (found: bool)
        ensures
            final(self).registered() == old(self).registered().remove(id),
            found == old(self).registered().contains(id),
    {
        client_map_remove(&mut self.clients, id)
    }

    pub fn is_registered(&self, id: i32) -> (found: bool)
        ensures
            found == self.registered().contains(id),
    {
        client_map_contains(&self.clients, id)
    }

    /// The queues that a broadcast goes out to: one for every registered
    /// client, in no particular order.
    pub fn subscribers(&self) -> (queues: Vec<(i32, Sender<Packet>)>)
        ensures
            spec_queue_ids(queues@).no_duplicates(),
            spec_queue_ids(queues@).to_set() == self.registered(),
    {
        client_map_queues(&self.clients)
    }
}

} // verus!
