//! The router service: a connection to a remote packet router that can be
//! made again whenever it is lost.
//!
//! The conduit of the service is the pair of streams of the `route` call:
//! envelopes go up, envelopes come down. The service connects when a connect
//! or a send is asked for, and sees to it that a register envelope has gone
//! up a conduit before any packet does.
//!
//! The service decides and keeps the state; its driver owns the streams. Each
//! request of the caller and each completion that the driver reports is a
//! method here, which tells the driver what to do next.

use vstd::prelude::*;
use crate::bytes::copy_bytes;
use crate::error::{DecodeError, Error};

verus! {

/// Number of envelopes that the upstream side of a conduit holds before a
/// send has to wait.
pub const CONDUIT_CAPACITY: usize = 50;

/// The message that registers a gateway with the packet router.
#[derive(Debug, Clone, PartialEq, Eq)]
pub struct Register {
    /// Milliseconds since the unix epoch.
    pub timestamp: u64,
    /// Public key of the gateway.
    pub gateway: Vec<u8>,
    /// Signature over the message with an empty signature.
    pub signature: Vec<u8>,
}

/// An envelope that goes up to the router.
#[derive(Debug, PartialEq, Eq)]
pub enum EnvelopeUp<U> {
    Packet(U),
    Register(Register),
}

/// An envelope that comes down from the router.
#[derive(Debug, PartialEq, Eq)]
pub enum EnvelopeDown<D> {
    Packet(D),
    /// An envelope without data, or with data of a kind that is not known.
    Unknown,
}

/// The kind of an envelope that went up.
#[derive(Debug, Clone, Copy, PartialEq, Eq, Structural)]
pub enum UpKind {
    Register,
    Packet,
}

/// What the service is in the middle of.
#[derive(Debug, Clone, Copy, PartialEq, Eq, Structural)]
pub enum Phase {
    /// Nothing.
    Idle,
    /// A stream is being opened.
    Opening,
    /// The register message of a new stream is being signed.
    Signing,
    /// The register envelope is on its way up a new stream.
    Registering,
    /// A packet envelope is on its way up the conduit.
    Sending,
    /// The next envelope is awaited from the conduit.
    Receiving,
}

/// What the driver is to do next for a connect or a send.
#[derive(Debug, PartialEq, Eq)]
pub enum RouterAction<U> {
    /// Open a stream to the service's uri, with room for `capacity`
    /// envelopes upstream, and report with `opened`.
    Open { capacity: usize },
    /// Sign this message with the gateway's key, and report with `signed`.
    Sign(Register),
    /// Put this envelope on the stream: the new one while a connect is under
    /// way, else the conduit. Report with `transmitted`.
    Transmit(EnvelopeUp<U>),
    /// The request is over, with this result.
    Finished(Result<(), Error>),
}

/// What the driver is to do next for a receive.
#[derive(Debug, Clone, Copy, PartialEq, Eq, Structural)]
pub enum RecvAction {
    /// There is no conduit: wait, for as long as the caller does. Nothing
    /// will come unless a connect or a send is asked for.
    Pending,
    /// Await the next envelope from the conduit, and report with `received`.
    Read,
}

enum Step<U> {
    Idle,
    Opening { then: Option<U> },
    Signing { timestamp: u64, then: Option<U> },
    Registering { then: Option<U> },
    Sending,
    Receiving,
}

/// Whether `log` starts with a register envelope and goes on with packets
/// only.
pub open spec fn register_first(log: Seq<UpKind>) -> bool {
    &&& log.len() > 0
    &&& log[0] == UpKind::Register
    &&& forall|i: int| 1 <= i < log.len() ==> log[i] == UpKind::Packet
}

/// What a receive comes to, given what the conduit gave: the packet of a
/// packet envelope, an error for any other envelope, nothing at the end of
/// the stream, and the error with which the stream failed.
pub open spec fn delivery<D>(
    read: Result<Option<EnvelopeDown<D>>, Error>,
) -> Result<Option<D>, Error> {
    match read {
        Ok(Some(EnvelopeDown::Packet(packet))) => Ok(Some(packet)),
        Ok(Some(EnvelopeDown::Unknown)) => Err(Error::Decode(DecodeError::InvalidEnvelope)),
        Ok(None) => Ok(None),
        Err(err) => Err(err),
    }
}

/// A connection to a remote packet router, for packets of type `U`.
pub struct RouterService<U> {
    pub uri: String,
    gateway: Vec<u8>,
    live: bool,
    step: Step<U>,
    sent: Ghost<Seq<UpKind>>,
}

impl<U> RouterService<U> {
    /// Whether the service has a conduit.
    pub closed spec fn connected(self) -> bool {
        self.live
    }

    /// What the service is in the middle of.
    pub closed spec fn phase_spec(self) -> Phase {
        match self.step {
            Step::Idle => Phase::Idle,
            Step::Opening { .. } => Phase::Opening,
            Step::Signing { .. } => Phase::Signing,
            Step::Registering { .. } => Phase::Registering,
            Step::Sending => Phase::Sending,
            Step::Receiving => Phase::Receiving,
        }
    }

    /// The packet that waits for the connect under way to end.
    pub closed spec fn waiting(self) -> Option<U> {
        match self.step {
            Step::Opening { then } => then,
            Step::Signing { then, .. } => then,
            Step::Registering { then } => then,
            _ => None,
        }
    }

    /// The time that the register message under way is stamped with.
    pub closed spec fn register_time(self) -> u64 {
        match self.step {
            Step::Signing { timestamp, .. } => timestamp,
            _ => 0,
        }
    }

    /// The kinds of the envelopes that have gone up the conduit, in order.
    pub closed spec fn upstream(self) -> Seq<UpKind> {
        self.sent@
    }

    /// The uri of the router.
    pub closed spec fn address(self) -> String {
        self.uri
    }

    /// The public key of the gateway.
    pub closed spec fn gateway_key(self) -> Seq<u8> {
        self.gateway@
    }

    /// The service is well formed: it has a conduit exactly if envelopes
    /// have gone up, a register envelope first and then packets only; it
    /// sends and receives only with a conduit; and a packet waits only for a
    /// connect of a service without conduit.
    pub open spec fn wf(self) -> bool {
        &&& self.connected() <==> self.upstream().len() > 0
        &&& self.connected() ==> register_first(self.upstream())
        &&& (self.phase_spec() == Phase::Sending || self.phase_spec() == Phase::Receiving)
            ==> self.connected()
        &&& self.waiting() is Some ==> !self.connected() && (self.phase_spec() == Phase::Opening
            || self.phase_spec() == Phase::Signing || self.phase_spec() == Phase::Registering)
    }

    /// Whether `self` is `before` but for what the service is in the middle
    /// of, which is now `phase` with the packet `waiting`.
    pub open spec fn moved_to(self, before: Self, phase: Phase, waiting: Option<U>) -> bool {
        &&& self.address() == before.address()
        &&& self.gateway_key() == before.gateway_key()
        &&& self.connected() == before.connected()
        &&& self.upstream() == before.upstream()
        &&& self.phase_spec() == phase
        &&& self.waiting() == waiting
    }

    /// Whether `self` is `before` without its conduit, and in the middle of
    /// nothing.
    pub open spec fn dropped_from(self, before: Self) -> bool {
        &&& self.address() == before.address()
        &&& self.gateway_key() == before.gateway_key()
        &&& !self.connected()
        &&& self.upstream().len() == 0
        &&& self.phase_spec() == Phase::Idle
        &&& self.waiting() is None
    }

    /// A service for the router at `uri`, on behalf of the gateway with the
    /// public key `gateway`. It is not connected: the stream is opened when
    /// it is first needed.
    pub fn new(uri: String, gateway: Vec<u8>) -> (service: Self)
        ensures
            service.wf(),
            service.address() == uri,
            service.gateway_key() == gateway@,
            !service.connected(),
            service.phase_spec() == Phase::Idle,
            service.waiting() is None,
            service.upstream().len() == 0,
    {
        RouterService { uri, gateway, live: false, step: Step::Idle, sent: Ghost(Seq::empty()) }
    }

    /// Whether the service has a conduit.
    pub fn is_connected(&self) -> (live: bool)
        ensures
            live == self.connected(),
    {
        self.live
    }

    /// What the service is in the middle of.
    pub fn phase(&self) -> (phase: Phase)
        ensures
            phase == self.phase_spec(),
    {
        match &self.step {
            Step::Idle => Phase::Idle,
            Step::Opening { .. } => Phase::Opening,
            Step::Signing { .. } => Phase::Signing,
            Step::Registering { .. } => Phase::Registering,
            Step::Sending => Phase::Sending,
            Step::Receiving => Phase::Receiving,
        }
    }

    /// Drop the conduit, and with it whatever was under way.
    pub fn disconnect(&mut self)
        ensures
            final(self).wf(),
            final(self).dropped_from(*old(self)),
    {
        self.live = false;
        self.step = Step::Idle;
        self.sent = Ghost(Seq::empty());
    }

    /// Give up what is under way, as when the caller stops waiting for it.
    /// The conduit stays as it is; a stream that was being set up is not
    /// taken into use.
    pub fn abandon(&mut self)
        requires
            old(self).wf(),
        ensures
            final(self).wf(),
            final(self).moved_to(*old(self), Phase::Idle, None),
    {
        self.step = Step::Idle;
    }

    /// Start to connect: a stream is opened, then the gateway is registered
    /// on it, and then the stream becomes the conduit.
    pub fn connect(&mut self) -> (action: RouterAction<U>)
        requires
            old(self).wf(),
            old(self).phase_spec() == Phase::Idle,
        ensures
            final(self).wf(),
            final(self).moved_to(*old(self), Phase::Opening, None),
            action == (RouterAction::<U>::Open { capacity: CONDUIT_CAPACITY }),
    {
        self.step = Step::Opening { then: None };
        RouterAction::Open { capacity: CONDUIT_CAPACITY }
    }

    /// Drop the conduit and start to connect.
    pub fn reconnect(&mut self) -> (action: RouterAction<U>)
        ensures
            final(self).wf(),
            final(self).address() == old(self).address(),
            final(self).gateway_key() == old(self).gateway_key(),
            !final(self).connected(),
            final(self).upstream().len() == 0,
            final(self).phase_spec() == Phase::Opening,
            final(self).waiting() is None,
            action == (RouterAction::<U>::Open { capacity: CONDUIT_CAPACITY }),
    {
        self.disconnect();
        self.connect()
    }

    /// Send a packet up. With a conduit the packet goes up at once. Without
    /// one the service first connects, and the packet waits until the
    /// gateway is registered.
    pub fn send(&mut self, msg: U) -> (action: RouterAction<U>)
        requires
            old(self).wf(),
            old(self).phase_spec() == Phase::Idle,
        ensures
            final(self).wf(),
            old(self).connected() ==> final(self).moved_to(*old(self), Phase::Sending, None)
                && action == RouterAction::Transmit(EnvelopeUp::Packet(msg)),
            !old(self).connected() ==> final(self).moved_to(*old(self), Phase::Opening, Some(msg))
                && action == (RouterAction::<U>::Open { capacity: CONDUIT_CAPACITY }),
    {
        if self.live {
            self.step = Step::Sending;
            RouterAction::Transmit(EnvelopeUp::Packet(msg))
        } else {
            self.step = Step::Opening { then: Some(msg) };
            RouterAction::Open { capacity: CONDUIT_CAPACITY }
        }
    }

    /// The stream asked for was opened at `timestamp`, in milliseconds since
    /// the unix epoch, or opening it failed. On success the register
    /// message is to be signed; a failure ends the connect, and the send that
    /// waited for it, with the error. A conduit that was there stays.
    pub fn opened(&mut self, result: Result<u64, Error>) -> (action: RouterAction<U>)
        requires
            old(self).wf(),
            old(self).phase_spec() == Phase::Opening,
        ensures
            final(self).wf(),
            match result {
                Ok(timestamp) => {
                    &&& final(self).moved_to(*old(self), Phase::Signing, old(self).waiting())
                    &&& final(self).register_time() == timestamp
                    &&& action matches RouterAction::Sign(register)
                    &&& register.timestamp == timestamp
                    &&& register.gateway@ == old(self).gateway_key()
                    &&& register.signature@.len() == 0
                },
                Err(err) => {
                    &&& final(self).moved_to(*old(self), Phase::Idle, None)
                    &&& action == RouterAction::<U>::Finished(Err(err))
                },
            },
    {
        let mut step = Step::Idle;
        core::mem::swap(&mut self.step, &mut step);
        match result {
            Ok(timestamp) => {
                let then = match step {
                    Step::Opening { then } => then,
                    _ => None,
                };
                self.step = Step::Signing { timestamp, then };
                RouterAction::Sign(
                    Register {
                        timestamp,
                        gateway: copy_bytes(&self.gateway),
                        signature: Vec::new(),
                    },
                )
            },
            Err(err) => RouterAction::Finished(Err(err)),
        }
    }

    /// The register message was signed, or signing failed. On success the
    /// register envelope, with the signature in it, is to go up the new
    /// stream; a failure ends the connect with the error.
    pub fn signed(&mut self, result: Result<Vec<u8>, Error>) -> (action: RouterAction<U>)
        requires
            old(self).wf(),
            old(self).phase_spec() == Phase::Signing,
        ensures
            final(self).wf(),
            match result {
                Ok(signature) => {
                    &&& final(self).moved_to(*old(self), Phase::Registering, old(self).waiting())
                    &&& action matches RouterAction::Transmit(EnvelopeUp::Register(register))
                    &&& register.timestamp == old(self).register_time()
                    &&& register.gateway@ == old(self).gateway_key()
                    &&& register.signature == signature
                },
                Err(err) => {
                    &&& final(self).moved_to(*old(self), Phase::Idle, None)
                    &&& action == RouterAction::<U>::Finished(Err(err))
                },
            },
    {
        let mut step = Step::Idle;
        core::mem::swap(&mut self.step, &mut step);
        match result {
            Ok(signature) => {
                let (timestamp, then) = match step {
                    Step::Signing { timestamp, then } => (timestamp, then),
                    _ => (0, None),
                };
                self.step = Step::Registering { then };
                RouterAction::Transmit(
                    EnvelopeUp::Register(
                        Register { timestamp, gateway: copy_bytes(&self.gateway), signature },
                    ),
                )
            },
            Err(err) => RouterAction::Finished(Err(err)),
        }
    }

    /// The envelope handed out last went up, or the stream refused it.
    ///
    /// A register envelope that went up makes the new stream the conduit;
    /// the packet that waited for it goes up next. A register envelope that
    /// did not go up ends the connect with the error, and a conduit that was
    /// there stays. A packet that went up ends the send. A packet that did
    /// not go up ends it with the error, and the conduit is dropped: the next
    /// send connects again.
    pub fn transmitted(&mut self, result: Result<(), Error>) -> (action: RouterAction<U>)
        requires
            old(self).wf(),
            old(self).phase_spec() == Phase::Registering || old(self).phase_spec()
                == Phase::Sending,
        ensures
            final(self).wf(),
            final(self).address() == old(self).address(),
            final(self).gateway_key() == old(self).gateway_key(),
            final(self).waiting() is None,
            match (old(self).phase_spec(), result) {
                (Phase::Registering, Ok(_)) => {
                    &&& final(self).connected()
                    &&& final(self).upstream() == seq![UpKind::Register]
                    &&& match old(self).waiting() {
                        Some(msg) => final(self).phase_spec() == Phase::Sending && action
                            == RouterAction::Transmit(EnvelopeUp::Packet(msg)),
                        None => final(self).phase_spec() == Phase::Idle && action
                            == RouterAction::<U>::Finished(Ok(())),
                    }
                },
                (Phase::Registering, Err(err)) => {
                    &&& final(self).moved_to(*old(self), Phase::Idle, None)
                    &&& action == RouterAction::<U>::Finished(Err(err))
                },
                (_, Ok(_)) => {
                    &&& final(self).connected()
                    &&& final(self).upstream() == old(self).upstream().push(UpKind::Packet)
                    &&& final(self).phase_spec() == Phase::Idle
                    &&& action == RouterAction::<U>::Finished(Ok(()))
                },
                (_, Err(err)) => {
                    &&& final(self).dropped_from(*old(self))
                    &&& action == RouterAction::<U>::Finished(Err(err))
                },
            },
    {
        let mut step = Step::Idle;
        core::mem::swap(&mut self.step, &mut step);
        match step {
            Step::Registering { then } => match result {
                Ok(()) => {
                    self.live = true;
                    self.sent = Ghost(Seq::empty().push(UpKind::Register));
                    match then {
                        Some(msg) => {
                            self.step = Step::Sending;
                            RouterAction::Transmit(EnvelopeUp::Packet(msg))
                        },
                        None => RouterAction::Finished(Ok(())),
                    }
                },
                Err(err) => RouterAction::Finished(Err(err)),
            },
            _ => match result {
                Ok(()) => {
                    self.sent = Ghost(self.sent@.push(UpKind::Packet));
                    RouterAction::Finished(Ok(()))
                },
                Err(err) => {
                    self.disconnect();
                    RouterAction::Finished(Err(err))
                },
            },
        }
    }

    /// Receive the next packet from the router. Without a conduit there is
    /// nothing to receive, and no connect is tried: the caller is to wait.
    pub fn recv(&mut self) -> (action: RecvAction)
        requires
            old(self).wf(),
            old(self).phase_spec() == Phase::Idle,
        ensures
            final(self).wf(),
            old(self).connected() ==> final(self).moved_to(*old(self), Phase::Receiving, None)
                && action == RecvAction::Read,
            !old(self).connected() ==> final(self).moved_to(*old(self), Phase::Idle, None)
                && action == RecvAction::Pending,
    {
        if self.live {
            self.step = Step::Receiving;
            RecvAction::Read
        } else {
            RecvAction::Pending
        }
    }

    /// The conduit gave an envelope, ended, or failed. A packet is handed
    /// on and the conduit stays; anything else is handed on too, and the
    /// conduit is dropped.
    pub fn received<D>(
        &mut self,
        read: Result<Option<EnvelopeDown<D>>, Error>,
    ) -> (result: Result<Option<D>, Error>)
        requires
            old(self).wf(),
            old(self).phase_spec() == Phase::Receiving,
        ensures
            final(self).wf(),
            result == delivery(read),
            result matches Ok(Some(_)) ==> final(self).moved_to(*old(self), Phase::Idle, None),
            !(result matches Ok(Some(_))) ==> final(self).dropped_from(*old(self)),
    {
        match read {
            Ok(Some(EnvelopeDown::Packet(packet))) => {
                self.step = Step::Idle;
                Ok(Some(packet))
            },
            Ok(Some(EnvelopeDown::Unknown)) => {
                self.disconnect();
                Err(DecodeError::invalid_envelope())
            },
            Ok(None) => {
                self.disconnect();
                Ok(None)
            },
            Err(err) => {
                self.disconnect();
                Err(err)
            },
        }
    }
}

/// Dropping the conduit twice is dropping it once: the second drop changes
/// nothing that can be seen of the service.
pub proof fn lemma_disconnect_idempotent<U>(
    before: RouterService<U>,
    once: RouterService<U>,
    twice: RouterService<U>,
)
    requires
        once.dropped_from(before),
        twice.dropped_from(once),
    ensures
        twice.dropped_from(before),
        twice.address() == once.address(),
        twice.gateway_key() == once.gateway_key(),
        twice.connected() == once.connected(),
        twice.upstream() =~= once.upstream(),
        twice.phase_spec() == once.phase_spec(),
        twice.waiting() == once.waiting(),
{
}

/// On a conduit the register envelope goes first: whenever a packet has gone
/// up, it was not the first envelope, and the first was a register envelope.
pub proof fn lemma_register_before_packets<U>(service: RouterService<U>, i: int)
    requires
        service.wf(),
        0 <= i < service.upstream().len(),
        service.upstream()[i] == UpKind::Packet,
    ensures
        service.connected(),
        i > 0,
        service.upstream()[0] == UpKind::Register,
{
}

/// A service that lost its conduit is ready to connect again: it is in the
/// middle of nothing, and nothing has gone up the conduit that the next send
/// will make.
pub proof fn lemma_dropped_is_fresh<U>(before: RouterService<U>, after: RouterService<U>)
    requires
        after.dropped_from(before),
    ensures
        after.wf(),
        !after.connected(),
        after.phase_spec() == Phase::Idle,
        after.upstream() =~= Seq::<UpKind>::empty(),
{
}

} // verus!
