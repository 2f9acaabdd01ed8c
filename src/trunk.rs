use vstd::prelude::*;
use crossbeam_channel::{Receiver, Sender};
use crate::signal::{ContentHash, Signal};

verus! {

#[verifier::external_type_specification]
#[verifier::external_body]
#[verifier::reject_recursive_types(T)]
pub struct ExSender<T>(Sender<T>);

#[verifier::external_type_specification]
#[verifier::external_body]
#[verifier::reject_recursive_types(T)]
pub struct ExReceiver<T>(Receiver<T>);

/// A signal about a hash, as a root's worker sent it.
#[derive(Clone, Debug, PartialEq, Eq)]
pub struct Emission {
    /// The generation of the worker that sent it.
    pub generation: u64,
    pub hash: ContentHash,
    pub signal: Signal,
}

/// Relies on `crossbeam_channel::unbounded`: a fresh channel with no bound
/// on how many messages it holds, so that sending never blocks.
#[verifier::external_body]
fn open_channel() -> (Sender<Emission>, Receiver<Emission>) {
    crossbeam_channel::unbounded()
}

/// Relies on `Clone` for `crossbeam_channel::Sender`: another handle on the
/// same channel.
#[verifier::external_body]
fn clone_sender(s: &Sender<Emission>) -> Sender<Emission> {
    s.clone()
}

/// Relies on `crossbeam_channel::Sender::send`: when the channel is
/// disconnected the message comes back in the error.
#[verifier::external_body]
fn send_on(s: &Sender<Emission>, e: Emission) -> (r: Result<(), Emission>)
    ensures
        r matches Err(back) ==> back == e,
{
    match s.send(e) {
        Ok(()) => Ok(()),
        Err(err) => Err(err.0),
    }
}

/// The sink shared by every root's worker: many producers, one consumer.
/// Each worker's messages arrive in the order it sent them.
pub struct SignalTrunk {
    sender: Sender<Emission>,
    receiver: Receiver<Emission>,
}

/// A producer handle on the trunk, bound to one worker generation.
pub struct RootSender {
    generation: u64,
    sender: Sender<Emission>,
}

impl RootSender {
    pub closed spec fn spec_generation(&self) -> u64 {
        self.generation
    }

    /// The generation that this handle stamps on what it sends.
    pub fn generation(&self) -> (r: u64)
        ensures
            r == self.spec_generation(),
    {
        self.generation
    }

    /// What this handle sends for `signal` about `hash`: the signal stamped
    /// with the handle's generation.
    pub fn emission(&self, hash: ContentHash, signal: Signal) -> (e: Emission)
        ensures
            e.generation == self.spec_generation(),
            e.hash == hash,
            e.signal == signal,
    {
        Emission { generation: self.generation, hash, signal }
    }

    /// Sends `self.emission(hash, signal)` into the trunk without blocking.
    /// When the consumer is gone the signal comes back unchanged.
    pub fn send(&self, hash: ContentHash, signal: Signal) -> (r: Result<(), Signal>)
        ensures
            r matches Err(back) ==> back == signal,
    {
        let e = self.emission(hash, signal);
        match send_on(&self.sender, e) {
            Ok(()) => Ok(()),
            Err(back) => Err(back.signal),
        }
    }
}

impl SignalTrunk {
    /// An empty trunk.
    pub fn new() -> (r: Self) {
        let (sender, receiver) = open_channel();
        SignalTrunk { sender, receiver }
    }

    /// A new producer handle for a worker of generation `generation`.
    pub fn sender(&self, generation: u64) -> (r: RootSender)
        ensures
            r.spec_generation() == generation,
    {
        RootSender { generation, sender: clone_sender(&self.sender) }
    }

    /// Waits until a signal is there and returns it. Since the trunk keeps a
    /// sender of its own, the channel never disconnects and a signal always
    /// comes.
    pub fn recv(&self) -> (r: Option<Emission>)
        ensures
            r.is_some(),
    {
        receive_on(self)
    }
}

/// Relies on `crossbeam_channel::Receiver::recv`: it waits for a message and
/// fails only once the channel is empty and every sender is gone. The trunk
/// holds a sender of its own for as long as it is borrowed here, so every
/// return carries a message.
#[verifier::external_body]
fn receive_on(t: &SignalTrunk) -> (r: Option<Emission>)
    ensures
        r.is_some(),
{
    t.receiver.recv().ok()
}

} // verus!
