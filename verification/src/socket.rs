//! The socket state machine.
//!
//! A [`Socket`] value is the logical state of one UDP endpoint: the local
//! address and port it was created for, the running flag that rules the
//! receive loop, and the FIFO queue of outbound packets. Every operation of
//! the public surface — creation, `listen`, `send`, `close`, and the
//! decisions the receive loop takes on each iteration — is a step of this
//! state machine, and its effect is stated over the [`SocketModel`] view
//! through the `*_model` transition functions below.
//!
//! What the library deliberately leaves outside: the operating-system socket
//! and its blocking receive and send calls, the background thread, and the
//! delivery of packets to the caller's sinks. The surrounding runtime
//! performs those actions and feeds their outcomes back in as plain values.

use vstd::prelude::*;

use crate::packet::Packet;
use crate::packet::PacketModel;

verus! {

/// Mathematical model of a [`Socket`]: the running flag, the outbound queue
/// in enqueue order, and the local endpoint the socket was created for.
pub struct SocketModel {
    pub running: bool,
    pub queue: Seq<PacketModel>,
    pub address: Seq<char>,
    pub port: u16,
}

/// The models of the packets of `q`, in order.
pub open spec fn queue_model(q: Seq<Packet>) -> Seq<PacketModel> {
    q.map_values(|p: Packet| p@)
}

/// The model of an optional packet.
pub open spec fn packet_option_model(r: Option<Packet>) -> Option<PacketModel> {
    match r {
        Some(p) => Some(p@),
        None => None,
    }
}

/// The error `listen` fails with when a required sink is absent. No
/// background activity is started in that case.
#[derive(Debug, Clone, Copy, PartialEq, Eq, Structural)]
pub enum ConfigError {
    /// No incoming sink was supplied.
    IncomingSinkRequired,
    /// No outgoing sink was supplied.
    OutgoingSinkRequired,
}

impl ConfigError {
    /// The human-readable reason.
    pub fn message(&self) -> (r: &'static str)
        ensures
            *self is IncomingSinkRequired ==> r@ == "incoming sink required"@,
            *self is OutgoingSinkRequired ==> r@ == "outgoing sink required"@,
    {
        match self {
            ConfigError::IncomingSinkRequired => "incoming sink required",
            ConfigError::OutgoingSinkRequired => "outgoing sink required",
        }
    }
}

/// The error creating a socket fails with when the operating system refuses
/// to bind the local endpoint (address in use, invalid address, insufficient
/// privilege). It carries the underlying reason as text; no partially
/// constructed socket is observable alongside it.
#[derive(Debug)]
pub struct BindError {
    /// The underlying reason, as reported by the operating system.
    pub reason: String,
}

impl BindError {
    /// Wraps the reason the bind was refused for.
    pub fn new(reason: String) -> (e: BindError)
        ensures
            e.reason@ == reason@,
    {
        BindError { reason }
    }
}

/// The state of a freshly created socket: not running, with an empty queue.
pub open spec fn initial_model(address: Seq<char>, port: u16) -> SocketModel {
    SocketModel { running: false, queue: Seq::empty(), address, port }
}

/// `listen` sets the running flag; everything else is untouched.
pub open spec fn listen_model(s: SocketModel) -> SocketModel {
    SocketModel { running: true, ..s }
}

/// `close` clears the running flag; the queue and the endpoint survive.
pub open spec fn close_model(s: SocketModel) -> SocketModel {
    SocketModel { running: false, ..s }
}

/// `send` appends one packet at the tail of the outbound queue.
pub open spec fn send_model(s: SocketModel, p: PacketModel) -> SocketModel {
    SocketModel { queue: s.queue.push(p), ..s }
}

/// One drain step removes the head of the queue — the oldest enqueued
/// packet — and leaves everything else untouched. On an empty queue it is a
/// no-op.
pub open spec fn dequeue_model(s: SocketModel) -> SocketModel {
    if s.queue.len() == 0 {
        s
    } else {
        SocketModel { queue: s.queue.drop_first(), ..s }
    }
}

/// The packet a drain step removes: the head of the queue, if any.
pub open spec fn dequeue_result(s: SocketModel) -> Option<PacketModel> {
    if s.queue.len() == 0 {
        None
    } else {
        Some(s.queue[0])
    }
}

/// What the outgoing sink is given after one transmission attempt: the
/// transmitted packet on success, nothing on failure.
pub open spec fn report_model(p: PacketModel, sent: bool) -> Option<PacketModel> {
    if sent {
        Some(p)
    } else {
        None
    }
}

/// One UDP endpoint's logical state. The surrounding runtime keeps one
/// `Socket` per bound endpoint, shares it between the caller's thread and
/// the receive loop under mutual exclusion, and asks it for every decision.
pub struct Socket {
    /// The local IP address this socket was created for.
    pub address: String,
    /// The local port this socket was created for.
    pub port: u16,
    running: bool,
    queue: Vec<Packet>,
}

impl View for Socket {
    type V = SocketModel;

    closed spec fn view(&self) -> SocketModel {
        SocketModel {
            running: self.running,
            queue: queue_model(self.queue@),
            address: self.address@,
            port: self.port,
        }
    }
}

impl Socket {
    /// The state half of binding: a socket over the given local endpoint,
    /// not yet listening, with nothing queued. The operating-system bind
    /// itself happens outside the library; only on its success is this
    /// state brought into being.
    pub fn new(address: String, port: u16) -> (s: Socket)
        ensures
            s@ == initial_model(address@, port),
    {
        let s = Socket { address, port, running: false, queue: Vec::new() };
        proof {
            assert(s@.queue =~= Seq::<PacketModel>::empty());
        }
        s
    }

    /// Whether the receive loop is to keep going: the flag it reads at the
    /// top of every iteration.
    pub fn running(&self) -> (r: bool)
        ensures
            r == self@.running,
    {
        self.running
    }

    /// How many packets await transmission.
    pub fn queue_len(&self) -> (n: usize)
        ensures
            n == self@.queue.len(),
    {
        self.queue.len()
    }

    /// Starts listening. Both sinks are required: with either absent the
    /// call fails and the state — in particular the running flag — is left
    /// as it was, so no background activity is owed. With both present the
    /// running flag is set and the two sinks are handed back for the
    /// receive loop to deliver into.
    ///
    /// A second `listen` before `close` is accepted the same way and stands
    /// for a second concurrent loop; that is permitted but not recommended,
    /// since two loops reading one socket race for datagrams.
    pub fn listen<I, O>(&mut self, incoming: Option<I>, outgoing: Option<O>) -> (r: Result<
        (I, O),
        ConfigError,
    >)
        ensures
            incoming is None ==> r == Err::<(I, O), ConfigError>(ConfigError::IncomingSinkRequired)
                && final(self)@ == old(self)@,
            incoming is Some && outgoing is None ==> r == Err::<(I, O), ConfigError>(
                ConfigError::OutgoingSinkRequired,
            ) && final(self)@ == old(self)@,
            incoming is Some && outgoing is Some ==> r == Ok::<(I, O), ConfigError>(
                (incoming->0, outgoing->0),
            ) && final(self)@ == listen_model(old(self)@),
    {
        let i = match incoming {
            Some(i) => i,
            None => {
                return Err(ConfigError::IncomingSinkRequired);
            },
        };
        let o = match outgoing {
            Some(o) => o,
            None => {
                return Err(ConfigError::OutgoingSinkRequired);
            },
        };
        self.running = true;
        Ok((i, o))
    }

    /// Requests the receive loop to stop: clears the running flag and
    /// nothing else. The loop observes the change at the top of its next
    /// iteration, so termination is eventual, not immediate, and no error
    /// is ever signalled.
    pub fn close(&mut self)
        ensures
            final(self)@ == close_model(old(self)@),
    {
        self.running = false;
    }

    /// Appends a packet to the tail of the outbound queue and returns at
    /// once: no network I/O happens here, and nothing checks that `listen`
    /// was ever called — without a running loop the queue only grows.
    pub fn send(&mut self, buffer: Vec<u8>, address: String, port: u16, version: u8)
        ensures
            final(self)@ == send_model(
                old(self)@,
                (PacketModel { buffer: buffer@, address: address@, port, version }),
            ),
    {
        let ghost p_model = PacketModel { buffer: buffer@, address: address@, port, version };
        self.queue.push(Packet { buffer, address, port, version });
        proof {
            assert(queue_model(self.queue@) =~= queue_model(old(self).queue@).push(p_model));
        }
    }

    /// One drain step of the receive loop: removes and returns the head of
    /// the outbound queue — the oldest enqueued packet — or returns nothing
    /// when the queue is empty. At most one packet leaves the queue per
    /// received datagram; a removed packet is never put back, whether or
    /// not its transmission later succeeds.
    pub fn dequeue_outbound(&mut self) -> (r: Option<Packet>)
        ensures
            final(self)@ == dequeue_model(old(self)@),
            packet_option_model(r) == dequeue_result(old(self)@),
    {
        if self.queue.len() > 0 {
            let p = self.queue.remove(0);
            proof {
                assert(queue_model(self.queue@) =~= queue_model(old(self).queue@).drop_first());
            }
            Some(p)
        } else {
            None
        }
    }
}

/// After one transmission attempt of a dequeued packet, what the outgoing
/// sink is given: the packet itself when the transmission succeeded, and
/// nothing when it failed — the failed packet is dropped, not retried, and
/// the failure is not surfaced anywhere else.
pub fn outgoing_report(packet: Packet, sent: bool) -> (r: Option<Packet>)
    ensures
        packet_option_model(r) == report_model(packet@, sent),
{
    if sent {
        Some(packet)
    } else {
        None
    }
}

/// Law: a packet enqueued into an empty queue is exactly what the next drain
/// step removes, and the queue no longer holds it afterwards.
pub proof fn lemma_send_then_dequeue(s: SocketModel, p: PacketModel)
    requires
        s.queue.len() == 0,
    ensures
        dequeue_result(send_model(s, p)) == Some(p),
        dequeue_model(send_model(s, p)).queue.len() == 0,
        !dequeue_model(send_model(s, p)).queue.contains(p),
{
    assert(send_model(s, p).queue[0] == p);
    assert(send_model(s, p).queue.drop_first() =~= Seq::<PacketModel>::empty());
}

/// Law: two packets enqueued one after the other into an empty queue are
/// removed by the next two drain steps in the order they were enqueued, and
/// the queue is empty afterwards.
pub proof fn lemma_fifo_order(s: SocketModel, p1: PacketModel, p2: PacketModel)
    requires
        s.queue.len() == 0,
    ensures
        dequeue_result(send_model(send_model(s, p1), p2)) == Some(p1),
        dequeue_result(dequeue_model(send_model(send_model(s, p1), p2))) == Some(p2),
        dequeue_model(dequeue_model(send_model(send_model(s, p1), p2))).queue.len() == 0,
{
    let q2 = send_model(send_model(s, p1), p2).queue;
    assert(q2 =~= seq![p1, p2]);
    assert(q2.drop_first() =~= seq![p2]);
    assert(q2.drop_first().drop_first() =~= Seq::<PacketModel>::empty());
}

/// Law: enqueuing never reorders what is already waiting — after a send,
/// the next drain step removes the packet that was at the head before the
/// send, or the new packet itself when nothing was waiting.
pub proof fn lemma_send_preserves_head(s: SocketModel, p: PacketModel)
    ensures
        s.queue.len() == 0 ==> dequeue_result(send_model(s, p)) == Some(p),
        s.queue.len() > 0 ==> dequeue_result(send_model(s, p)) == dequeue_result(s),
{
}

/// Law: after `close` the running flag is false and stays false under further
/// sends, so once the loop next observes the flag it delivers no further
/// incoming or outgoing events; the queue itself survives `close` untouched.
pub proof fn lemma_close_halts(s: SocketModel, p: PacketModel)
    ensures
        !close_model(s).running,
        close_model(s).queue == s.queue,
        !send_model(close_model(s), p).running,
{
}

/// Law: `send` without a preceding `listen` leaves the packet waiting at the
/// tail of the queue and starts nothing: the running flag stays false, so no
/// outgoing delivery can happen until `listen` is called and traffic
/// arrives.
pub proof fn lemma_send_while_idle(s: SocketModel, p: PacketModel)
    requires
        !s.running,
    ensures
        !send_model(s, p).running,
        send_model(s, p).queue == s.queue.push(p),
        send_model(s, p).queue.last() == p,
        send_model(s, p).queue.contains(p),
{
    assert(send_model(s, p).queue[s.queue.len() as int] == p);
}

} // verus!
