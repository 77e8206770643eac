//! The decisions of the correlation engine: which request to send, whether a
//! datagram answers an attempt, when an attempt is given up, and in which
//! order the outcomes of a trace are delivered.
//!
//! Nothing here touches a socket or a clock. The caller sends what it is
//! handed, and reports each datagram, and each reading of its clock, back.

use crate::address::{Family, IpAddress};
use crate::error::{EkkoError, Fault, ReadField};
use crate::packets::{
    filler_length, icmp_message, identifier, is_request, issued, resolve, sequence, unframe,
    EkkoPacket,
};
use crate::random::random_u16;
use crate::responses::{classify, classify_packet, lemma_classify_total, EkkoData, EkkoResponse};
use std::ops::Range;
use vstd::prelude::*;

verus! {

/// The timeout of the default settings: one second, in nanoseconds.
pub const DEFAULT_TIMEOUT: u64 = 1_000_000_000;

/// The size of the receive buffer of an IPv4 socket.
pub const RECEIVE_BUFFER_V4: usize = 256;

/// The size of the receive buffer of an IPv6 socket.
pub const RECEIVE_BUFFER_V6: usize = 512;

/// The settings of one call. The default has a random identifier.
#[derive(Clone, Copy, Debug)]
pub struct EkkoSettings {
    /// The identifier that marks the requests of this call.
    pub identifier: u16,
    /// The sequence number of the first request of this call.
    pub sequence: u16,
    /// How long to wait for replies, in nanoseconds.
    pub timeout: u64,
}

impl EkkoSettings {
    /// The default settings with the given identifier: sequence numbers
    /// from zero, and a timeout of one second.
    pub fn with_identifier(identifier: u16) -> (settings: EkkoSettings)
        ensures
            settings == (EkkoSettings { identifier, sequence: 0, timeout: DEFAULT_TIMEOUT }),
    {
        EkkoSettings { identifier, sequence: 0, timeout: DEFAULT_TIMEOUT }
    }
}

impl Default for EkkoSettings {
    /// A random identifier, sequence numbers from zero, and a timeout of
    /// one second.
    fn default() -> (settings: EkkoSettings)
        ensures
            settings.sequence == 0,
            settings.timeout == DEFAULT_TIMEOUT,
    {
        EkkoSettings::with_identifier(random_u16())
    }
}

/// One outgoing probe.
#[derive(Clone, Copy, Debug, PartialEq, Eq)]
pub struct Attempt {
    /// When the request was sent: a reading, in nanoseconds, of the
    /// caller's monotonic clock.
    pub timepoint: u64,
    /// The identifier of the request.
    pub identifier: u16,
    /// The sequence number of the request.
    pub sequence: u16,
    /// The hop limit of the request.
    pub hops: u32,
}

/// What a non-blocking receive returned.
#[derive(Clone, Copy, Debug)]
pub struct Arrival<'a> {
    /// The IP address of the sender, if the socket reported one.
    pub from: Option<IpAddress>,
    /// The bytes received.
    pub datagram: &'a [u8],
}

/// The error of a datagram whose sender the socket did not report as an
/// address of the engine's family.
pub open spec fn no_address(family: Family) -> EkkoError {
    match family {
        Family::V4 => EkkoError::SocketReceiveNoIpv4,
        Family::V6 => EkkoError::SocketReceiveNoIpv6,
    }
}

impl Attempt {
    /// Whether the ICMP message `message` belongs to this attempt: both its
    /// identifier and its sequence number can be read, and are those of the
    /// attempt. A message that cannot be read is foreign.
    pub open spec fn claims(&self, family: Family, message: Seq<u8>) -> bool {
        &&& identifier(family, message) == Ok::<u16, Fault>(self.identifier)
        &&& sequence(family, message) == Ok::<u16, Fault>(self.sequence)
    }

    /// Whether the received `datagram` answers this attempt: it holds an
    /// ICMP message, and the message belongs to the attempt.
    pub open spec fn answered_by(&self, family: Family, datagram: Seq<u8>) -> bool {
        icmp_message(family, datagram) matches Ok(message) && self.claims(family, message)
    }

    /// The outcome of this attempt when `datagram` from `responder` answers
    /// it after `elapsed`.
    pub open spec fn answer(
        &self,
        family: Family,
        responder: IpAddress,
        datagram: Seq<u8>,
        elapsed: u64,
    ) -> EkkoResponse {
        classify(
            (responder, self.hops),
            (self.timepoint, elapsed),
            family,
            icmp_message(family, datagram)->Ok_0,
        )->Ok_0
    }

    /// The outcome of this attempt when it is given up after `elapsed`.
    pub open spec fn spec_lacking(&self, elapsed: u64) -> EkkoResponse {
        EkkoResponse::Lacking(
            EkkoData {
                timepoint: self.timepoint,
                elapsed,
                address: None,
                identifier: self.identifier,
                sequence: self.sequence,
                hops: self.hops,
            },
        )
    }

    /// Whether `outcome` is one of this attempt: it carries the attempt's
    /// send time, identifier, sequence number and hop count.
    pub open spec fn owns(&self, outcome: EkkoResponse) -> bool {
        let data = outcome.spec_data();
        &&& data.timepoint == self.timepoint
        &&& data.identifier == self.identifier
        &&& data.sequence == self.sequence
        &&& data.hops == self.hops
    }

    /// The attempt of a single send with the given settings.
    pub fn new(settings: &EkkoSettings, hops: u32, timepoint: u64) -> (attempt: Attempt)
        ensures
            attempt == (Attempt {
                timepoint,
                identifier: settings.identifier,
                sequence: settings.sequence,
                hops,
            }),
    {
        Attempt { timepoint, identifier: settings.identifier, sequence: settings.sequence, hops }
    }

    /// The outcome of this attempt when it is given up after `elapsed`.
    #[verifier::when_used_as_spec(spec_lacking)]
    pub fn lacking(&self, elapsed: u64) -> (outcome: EkkoResponse)
        ensures
            outcome == self.spec_lacking(elapsed),
    {
        EkkoResponse::Lacking(
            EkkoData {
                timepoint: self.timepoint,
                elapsed,
                address: None,
                identifier: self.identifier,
                sequence: self.sequence,
                hops: self.hops,
            },
        )
    }

    /// Whether `packet` belongs to this attempt.
    pub fn accepts(&self, packet: &EkkoPacket) -> (accepted: bool)
        ensures
            accepted == self.claims(packet.spec_family(), packet.bytes()),
    {
        let family = packet.family();
        let data: &[u8] = packet.as_slice();
        match resolve(family, data, 4, ReadField::Identifier) {
            Ok(value) => {
                if value != self.identifier {
                    return false;
                }
            },
            Err(_) => { return false; },
        }
        match resolve(family, data, 6, ReadField::Sequence) {
            Ok(value) => value == self.sequence,
            Err(_) => false,
        }
    }
}

/// The outcome that an attempt of an engine of `family` has after a poll, if
/// it has one yet: the answer, if the poll brought a datagram that answers
/// the attempt; else nothing while `elapsed` is below `timeout`, and a
/// lacking outcome from then on.
pub open spec fn verdict(
    family: Family,
    attempt: Attempt,
    arrival: Option<(IpAddress, Seq<u8>)>,
    elapsed: u64,
    timeout: u64,
) -> Option<EkkoResponse> {
    match arrival {
        Some((responder, datagram)) if attempt.answered_by(family, datagram) => Some(
            attempt.answer(family, responder, datagram, elapsed),
        ),
        _ => if elapsed < timeout {
            None
        } else {
            Some(attempt.spec_lacking(elapsed))
        },
    }
}

/// The attempts of a trace over the hop counts from `start` up to, not
/// including, `end`: one for each hop count, in ascending order, all sent at
/// `timepoint` with the identifier of `settings`, and with sequence numbers
/// that count up from that of `settings` and wrap around after `0xFFFF`.
pub open spec fn planned(start: u32, end: u32, settings: EkkoSettings, timepoint: u64) -> Seq<
    Attempt,
> {
    Seq::new(
        if end > start {
            (end - start) as nat
        } else {
            0
        },
        |i: int|
            Attempt {
                timepoint,
                identifier: settings.identifier,
                sequence: ((settings.sequence + i) % 0x10000) as u16,
                hops: (start + i) as u32,
            },
    )
}

/// Whether `outcomes` can be what a trace has collected for `attempts`: there
/// is one place for each attempt, and what a place holds is an answer to its
/// own attempt.
pub open spec fn consistent(attempts: Seq<Attempt>, outcomes: Seq<Option<EkkoResponse>>) -> bool {
    &&& outcomes.len() == attempts.len()
    &&& forall|i: int|
        0 <= i < attempts.len() ==> (#[trigger] outcomes[i] matches Some(outcome)
            ==> attempts[i].owns(outcome) && outcome !is Lacking)
}

/// What a trace has collected after a datagram from `responder` arrived,
/// `elapsed` after the requests were sent: every attempt that was still open
/// and that the datagram answers has its answer; nothing else changes.
pub open spec fn recorded(
    family: Family,
    attempts: Seq<Attempt>,
    outcomes: Seq<Option<EkkoResponse>>,
    responder: IpAddress,
    datagram: Seq<u8>,
    elapsed: u64,
) -> Seq<Option<EkkoResponse>> {
    Seq::new(
        outcomes.len(),
        |i: int|
            if outcomes[i] is None && attempts[i].answered_by(family, datagram) {
                Some(attempts[i].answer(family, responder, datagram, elapsed))
            } else {
                outcomes[i]
            },
    )
}

/// The result of a trace that ends `elapsed` after its requests were sent:
/// for each attempt, in the order of the attempts, its answer if one was
/// collected, and a lacking outcome if none was.
pub open spec fn route(
    attempts: Seq<Attempt>,
    outcomes: Seq<Option<EkkoResponse>>,
    elapsed: u64,
) -> Seq<EkkoResponse> {
    Seq::new(
        attempts.len(),
        |i: int|
            match outcomes[i] {
                Some(outcome) => outcome,
                None => attempts[i].spec_lacking(elapsed),
            },
    )
}

/// A batch of attempts, one per hop count, with the answers collected so
/// far.
#[derive(Debug)]
pub struct Trace {
    family: Family,
    attempts: Vec<Attempt>,
    outcomes: Vec<Option<EkkoResponse>>,
}

impl Trace {
    #[verifier::type_invariant]
    spec fn settled(&self) -> bool {
        consistent(self.attempts@, self.outcomes@)
    }

    /// The family of the engine that planned the trace.
    pub closed spec fn family(&self) -> Family {
        self.family
    }

    /// The attempts, in the order of their hop counts.
    pub closed spec fn attempts(&self) -> Seq<Attempt> {
        self.attempts@
    }

    /// For each attempt the answer collected for it, if any.
    pub closed spec fn outcomes(&self) -> Seq<Option<EkkoResponse>> {
        self.outcomes@
    }

    /// Whether every attempt has its answer.
    pub open spec fn complete(&self) -> bool {
        forall|i: int| 0 <= i < self.outcomes().len() ==> (#[trigger] self.outcomes()[i]) is Some
    }

    /// The number of attempts.
    pub fn len(&self) -> (len: usize)
        ensures
            len == self.attempts().len(),
            consistent(self.attempts(), self.outcomes()),
    {
        proof {
            use_type_invariant(self);
        }
        self.attempts.len()
    }

    /// The attempt at `index`, counted from zero in the order of the hop
    /// counts; nothing from the number of attempts on.
    pub fn attempt(&self, index: usize) -> (attempt: Option<Attempt>)
        ensures
            attempt == (if index < self.attempts().len() {
                Some(self.attempts()[index as int])
            } else {
                None
            }),
    {
        if index < self.attempts.len() {
            Some(self.attempts[index])
        } else {
            None
        }
    }

    /// Whether every attempt has its answer.
    pub fn is_complete(&self) -> (complete: bool)
        ensures
            complete == self.complete(),
    {
        let mut at: usize = 0;
        while at < self.outcomes.len()
            invariant
                at <= self.outcomes@.len(),
                forall|i: int| 0 <= i < at ==> (#[trigger] self.outcomes@[i]) is Some,
            decreases self.outcomes@.len() - at,
        {
            if self.outcomes[at].is_none() {
                return false;
            }
            at = at + 1;
        }
        true
    }

    /// Whether to go on polling, `elapsed` after the requests were sent:
    /// while an attempt is open and `elapsed` is below `timeout`.
    pub fn is_pending(&self, elapsed: u64, timeout: u64) -> (pending: bool)
        ensures
            pending == (!self.complete() && elapsed < timeout),
    {
        elapsed < timeout && !self.is_complete()
    }

    /// Takes note of a datagram that arrived `elapsed` after the requests
    /// were sent: every attempt that is still open and that the datagram
    /// answers is settled with that answer. A datagram that answers no open
    /// attempt changes nothing. A datagram without a sender of the engine's
    /// family is an error, and changes nothing either.
    pub fn record(&mut self, arrival: Arrival, elapsed: u64) -> (noted: Result<(), EkkoError>)
        ensures
            final(self).family() == old(self).family(),
            final(self).attempts() == old(self).attempts(),
            consistent(final(self).attempts(), final(self).outcomes()),
            match arrival.from {
                Some(responder) if responder.spec_family() == old(self).family() => {
                    &&& noted == Ok::<(), EkkoError>(())
                    &&& final(self).outcomes() == recorded(
                        old(self).family(),
                        old(self).attempts(),
                        old(self).outcomes(),
                        responder,
                        arrival.datagram@,
                        elapsed,
                    )
                },
                _ => {
                    &&& noted == Err::<(), EkkoError>(no_address(old(self).family()))
                    &&& final(self).outcomes() == old(self).outcomes()
                },
            },
    {
        proof {
            use_type_invariant(&*self);
        }
        let responder = match responder_of(self.family, arrival.from) {
            Ok(responder) => responder,
            Err(error) => { return Err(error); },
        };
        let ghost before = self.outcomes@;
        let ghost goal = recorded(
            self.family,
            self.attempts@,
            before,
            responder,
            arrival.datagram@,
            elapsed,
        );
        let mut updated: Vec<Option<EkkoResponse>> = Vec::new();
        let mut at: usize = 0;
        while at < self.attempts.len()
            invariant
                at <= self.attempts@.len(),
                self.outcomes@ == before,
                before.len() == self.attempts@.len(),
                responder.spec_family() == self.family,
                consistent(self.attempts@, before),
                goal == recorded(
                    self.family,
                    self.attempts@,
                    before,
                    responder,
                    arrival.datagram@,
                    elapsed,
                ),
                updated@.len() == at,
                forall|i: int| 0 <= i < at ==> updated@[i] == goal[i],
                forall|i: int|
                    0 <= i < at ==> (#[trigger] updated@[i] matches Some(outcome)
                        ==> self.attempts@[i].owns(outcome) && outcome !is Lacking),
            decreases self.attempts@.len() - at,
        {
            let slot: Option<EkkoResponse> = match self.outcomes[at] {
                Some(outcome) => Some(outcome),
                None => {
                    let attempt: Attempt = self.attempts[at];
                    settle(self.family, &attempt, responder, arrival.datagram, elapsed)
                },
            };
            assert(before[at as int] matches Some(outcome) ==> self.attempts@[at as int].owns(
                outcome,
            ) && outcome !is Lacking);
            updated.push(slot);
            at = at + 1;
        }
        assert(updated@ =~= goal);
        self.outcomes = updated;
        Ok(())
    }

    /// Ends the trace, `elapsed` after its requests were sent: the outcomes
    /// of all attempts in the order of their hop counts, whatever the order
    /// in which the answers arrived. An attempt without an answer is lacking.
    pub fn finish(&self, elapsed: u64) -> (outcomes: Vec<EkkoResponse>)
        ensures
            outcomes@ == route(self.attempts(), self.outcomes(), elapsed),
            outcomes@.len() == self.attempts().len(),
            forall|i: int|
                0 <= i < outcomes@.len() ==> self.attempts()[i].owns(#[trigger] outcomes@[i]),
    {
        proof {
            use_type_invariant(self);
        }
        let mut list: Vec<EkkoResponse> = Vec::new();
        let mut at: usize = 0;
        while at < self.attempts.len()
            invariant
                at <= self.attempts@.len(),
                consistent(self.attempts@, self.outcomes@),
                list@.len() == at,
                forall|i: int|
                    0 <= i < at ==> list@[i] == route(self.attempts@, self.outcomes@, elapsed)[i],
            decreases self.attempts@.len() - at,
        {
            let outcome: EkkoResponse = match self.outcomes[at] {
                Some(outcome) => outcome,
                None => self.attempts[at].lacking(elapsed),
            };
            list.push(outcome);
            at = at + 1;
        }
        assert(list@ =~= route(self.attempts@, self.outcomes@, elapsed));
        list
    }
}

/// The fixed part of an engine: the address it sends from and the address it
/// probes, both of one family.
#[derive(Clone, Copy, Debug)]
pub struct Engine {
    source: IpAddress,
    target: IpAddress,
}

impl Engine {
    #[verifier::type_invariant]
    spec fn one_family(&self) -> bool {
        self.source.spec_family() == self.target.spec_family()
    }

    /// The address the engine sends from.
    pub closed spec fn spec_source(&self) -> IpAddress {
        self.source
    }

    /// The address the engine probes.
    pub closed spec fn spec_target(&self) -> IpAddress {
        self.target
    }

    /// The family of both addresses.
    pub open spec fn spec_family(&self) -> Family {
        self.spec_target().spec_family()
    }

    /// Whether `from` names a sender of the engine's family.
    pub open spec fn knows(&self, from: Option<IpAddress>) -> bool {
        from matches Some(address) && address.spec_family() == self.spec_family()
    }

    /// An engine that sends from `source` and probes `target`. Addresses of
    /// two families are refused.
    pub fn new(source: IpAddress, target: IpAddress) -> (engine: Result<Engine, EkkoError>)
        ensures
            match engine {
                Ok(engine) => {
                    &&& source.spec_family() == target.spec_family()
                    &&& engine.spec_source() == source
                    &&& engine.spec_target() == target
                },
                Err(error) => {
                    &&& source.spec_family() != target.spec_family()
                    &&& error == (EkkoError::SocketIpMismatch { src: source, dst: target })
                },
            },
    {
        if source.family() == target.family() {
            Ok(Engine { source, target })
        } else {
            Err(EkkoError::SocketIpMismatch { src: source, dst: target })
        }
    }

    /// An engine that probes `target` from the unspecified address of the
    /// target's family.
    pub fn with_target(target: IpAddress) -> (engine: Engine)
        ensures
            engine.spec_target() == target,
            engine.spec_source() == IpAddress::spec_unspecified(target.spec_family()),
    {
        Engine { source: IpAddress::unspecified(target.family()), target }
    }

    /// The address the engine sends from.
    #[verifier::when_used_as_spec(spec_source)]
    pub fn source(&self) -> (source: IpAddress)
        ensures
            source == self.spec_source(),
            source.spec_family() == self.spec_family(),
    {
        proof {
            use_type_invariant(self);
        }
        self.source
    }

    /// The address the engine probes.
    #[verifier::when_used_as_spec(spec_target)]
    pub fn target(&self) -> (target: IpAddress)
        ensures
            target == self.spec_target(),
    {
        self.target
    }

    /// The family of both addresses.
    #[verifier::when_used_as_spec(spec_family)]
    pub fn family(&self) -> (family: Family)
        ensures
            family == self.spec_family(),
            family == self.spec_source().spec_family(),
    {
        proof {
            use_type_invariant(self);
        }
        self.target.family()
    }

    /// The size to give the socket's receive buffer.
    pub fn receive_buffer_size(&self) -> (size: usize)
        ensures
            size == (match self.spec_family() {
                Family::V4 => RECEIVE_BUFFER_V4,
                Family::V6 => RECEIVE_BUFFER_V6,
            }),
    {
        match self.target.family() {
            Family::V4 => RECEIVE_BUFFER_V4,
            Family::V6 => RECEIVE_BUFFER_V6,
        }
    }

    /// Builds in `buf` the echo request of an attempt with identifier
    /// `pkt.0` and sequence number `pkt.1`, with a random filler.
    pub fn request<'a>(&self, buf: &'a mut [u8], pkt: (u16, u16)) -> (built: Result<
        EkkoPacket<'a>,
        EkkoError,
    >)
        ensures
            self.spec_source().spec_family() == self.spec_target().spec_family(),
            exists|filler: Seq<u8>|
                filler.len() == filler_length(self.spec_family()) && #[trigger] issued(
                    (self.spec_source(), self.spec_target()),
                    pkt,
                    filler,
                    old(buf)@,
                    final(buf)@,
                    built,
                ),
            built matches Ok(packet) ==> is_request(
                (self.spec_source(), self.spec_target()),
                pkt,
                packet.bytes(),
            ),
    {
        proof {
            use_type_invariant(self);
        }
        EkkoPacket::new(buf, pkt, (self.source, self.target))
    }

    /// Plans a trace over the hop counts in `hops`, with requests sent at
    /// `timepoint`: one attempt for each hop count, none of them answered.
    pub fn plan(&self, hops: Range<u32>, settings: &EkkoSettings, timepoint: u64) -> (trace: Trace)
        ensures
            trace.family() == self.spec_family(),
            trace.attempts() == planned(hops.start, hops.end, *settings, timepoint),
            trace.outcomes() == Seq::new(
                trace.attempts().len(),
                |i: int| None::<EkkoResponse>,
            ),
    {
        let ghost goal = planned(hops.start, hops.end, *settings, timepoint);
        let mut attempts: Vec<Attempt> = Vec::new();
        let mut outcomes: Vec<Option<EkkoResponse>> = Vec::new();
        let mut hop: u32 = hops.start;
        let mut sequence: u16 = settings.sequence;
        while hop < hops.end
            invariant
                hops.start <= hop,
                hop <= hops.end || attempts@.len() == 0,
                goal == planned(hops.start, hops.end, *settings, timepoint),
                attempts@.len() == (if hops.end > hops.start { hop - hops.start } else { 0 }),
                outcomes@.len() == attempts@.len(),
                sequence == (settings.sequence + attempts@.len()) % 0x10000,
                forall|i: int| 0 <= i < attempts@.len() ==> attempts@[i] == goal[i],
                forall|i: int| 0 <= i < outcomes@.len() ==> outcomes@[i] == None::<EkkoResponse>,
            decreases hops.end - hop,
        {
            attempts.push(
                Attempt { timepoint, identifier: settings.identifier, sequence, hops: hop },
            );
            outcomes.push(None);
            sequence = if sequence == u16::MAX {
                0
            } else {
                sequence + 1
            };
            hop = hop + 1;
        }
        assert(attempts@ =~= goal);
        assert(outcomes@ =~= Seq::new(attempts@.len(), |i: int| None::<EkkoResponse>));
        Trace { family: self.target.family(), attempts, outcomes }
    }

    /// The responder of a datagram: the sender that the socket reported,
    /// which must be an address of the engine's family.
    pub fn responder(&self, from: Option<IpAddress>) -> (responder: Result<IpAddress, EkkoError>)
        ensures
            match responder {
                Ok(address) => from == Some(address) && self.knows(from),
                Err(error) => !self.knows(from) && error == no_address(self.spec_family()),
            },
    {
        responder_of(self.target.family(), from)
    }

    /// Decides on `attempt` after one non-blocking receive, `elapsed` after
    /// the request was sent: `arrival` is what the receive returned, if it
    /// returned anything.
    ///
    /// A datagram that answers the attempt settles it. A datagram that does
    /// not, be it foreign, stale or unreadable, is passed over, and so is a
    /// receive that returned nothing: the attempt stays open while `elapsed`
    /// is below `timeout`, and is lacking from then on. A datagram without
    /// a sender of the engine's family is an error.
    pub fn poll(
        &self,
        attempt: &Attempt,
        arrival: Option<Arrival>,
        elapsed: u64,
        timeout: u64,
    ) -> (outcome: Result<Option<EkkoResponse>, EkkoError>)
        ensures
            match arrival {
                Some(arrival) => match arrival.from {
                    Some(responder) if responder.spec_family() == self.spec_family() => outcome
                        == Ok::<Option<EkkoResponse>, EkkoError>(
                        verdict(
                            self.spec_family(),
                            *attempt,
                            Some((responder, arrival.datagram@)),
                            elapsed,
                            timeout,
                        ),
                    ),
                    _ => outcome == Err::<Option<EkkoResponse>, EkkoError>(
                        no_address(self.spec_family()),
                    ),
                },
                None => outcome == Ok::<Option<EkkoResponse>, EkkoError>(
                    verdict(self.spec_family(), *attempt, None, elapsed, timeout),
                ),
            },
            outcome matches Ok(Some(EkkoResponse::Lacking(data))) ==> elapsed >= timeout
                && data.elapsed == elapsed,
    {
        let family = self.target.family();
        match arrival {
            Some(arrival) => {
                let responder = match self.responder(arrival.from) {
                    Ok(responder) => responder,
                    Err(error) => { return Err(error); },
                };
                match settle(family, attempt, responder, arrival.datagram, elapsed) {
                    Some(answer) => { return Ok(Some(answer)); },
                    None => {},
                }
            },
            None => {},
        }
        if elapsed < timeout {
            Ok(None)
        } else {
            Ok(Some(attempt.lacking(elapsed)))
        }
    }
}

/// The responder of a datagram received by an engine of `family`: the sender
/// that the socket reported, if it is an address of that family.
fn responder_of(family: Family, from: Option<IpAddress>) -> (responder: Result<
    IpAddress,
    EkkoError,
>)
    ensures
        match responder {
            Ok(address) => from == Some(address) && address.spec_family() == family,
            Err(error) => !(from matches Some(address) && address.spec_family() == family)
                && error == no_address(family),
        },
{
    match from {
        Some(address) => {
            if address.family() == family {
                return Ok(address);
            }
        },
        None => {},
    }
    match family {
        Family::V4 => Err(EkkoError::SocketReceiveNoIpv4),
        Family::V6 => Err(EkkoError::SocketReceiveNoIpv6),
    }
}

/// The answer to `attempt` that `datagram` from `responder` is, if it is one.
fn settle(
    family: Family,
    attempt: &Attempt,
    responder: IpAddress,
    datagram: &[u8],
    elapsed: u64,
) -> (answer: Option<EkkoResponse>)
    requires
        responder.spec_family() == family,
    ensures
        answer == (if attempt.answered_by(family, datagram@) {
            Some(attempt.answer(family, responder, datagram@, elapsed))
        } else {
            None
        }),
        answer matches Some(outcome) ==> attempt.owns(outcome) && outcome !is Lacking,
{
    let message: &[u8] = match unframe(family, datagram) {
        Ok(message) => message,
        Err(_) => { return None; },
    };
    if !attempt.accepts(&EkkoPacket::of(family, message)) {
        return None;
    }
    proof {
        lemma_classify_total((responder, attempt.hops), (attempt.timepoint, elapsed), message@);
    }
    let net = (responder, attempt.hops);
    let time = (attempt.timepoint, elapsed);
    match classify_packet(net, time, family, message) {
        Ok(outcome) => Some(outcome),
        Err(_) => None,
    }
}

/// An answer always classifies: a datagram that answers an attempt, from a
/// responder of the engine's family, has an outcome, which is no lacking one
/// and carries the attempt's send time, identifier, sequence number and hop
/// count, the responder, and the elapsed time.
pub proof fn lemma_answer_is_classified(
    family: Family,
    attempt: Attempt,
    responder: IpAddress,
    datagram: Seq<u8>,
    elapsed: u64,
)
    requires
        responder.spec_family() == family,
        attempt.answered_by(family, datagram),
    ensures
        classify(
            (responder, attempt.hops),
            (attempt.timepoint, elapsed),
            family,
            icmp_message(family, datagram)->Ok_0,
        ) == Ok::<EkkoResponse, Fault>(attempt.answer(family, responder, datagram, elapsed)),
        attempt.owns(attempt.answer(family, responder, datagram, elapsed)),
        attempt.answer(family, responder, datagram, elapsed) !is Lacking,
        attempt.answer(family, responder, datagram, elapsed).spec_data().address == Some(responder),
        attempt.answer(family, responder, datagram, elapsed).spec_data().elapsed == elapsed,
{
    lemma_classify_total(
        (responder, attempt.hops),
        (attempt.timepoint, elapsed),
        icmp_message(family, datagram)->Ok_0,
    );
}

/// Sequence numbers are unique within a batch of at most `0x10000` attempts,
/// and so a datagram answers at most one attempt of such a batch.
pub proof fn lemma_planned_sequences_distinct(
    start: u32,
    end: u32,
    settings: EkkoSettings,
    timepoint: u64,
    family: Family,
    datagram: Seq<u8>,
)
    requires
        end - start <= 0x10000,
    ensures
        ({
            let attempts = planned(start, end, settings, timepoint);
            &&& forall|i: int, j: int|
                0 <= i < j < attempts.len() ==> (#[trigger] attempts[i]).sequence
                    != (#[trigger] attempts[j]).sequence
            &&& forall|i: int, j: int|
                0 <= i < j < attempts.len() ==> !((#[trigger] attempts[i]).answered_by(
                    family,
                    datagram,
                ) && (#[trigger] attempts[j]).answered_by(family, datagram))
        }),
{
}

/// What a trace has collected after the arrivals in `heard` were recorded
/// one after the other: each arrival is a responder, a datagram, and the
/// time elapsed when it arrived.
pub open spec fn collected(
    family: Family,
    attempts: Seq<Attempt>,
    outcomes: Seq<Option<EkkoResponse>>,
    heard: Seq<(IpAddress, Seq<u8>, u64)>,
) -> Seq<Option<EkkoResponse>>
    decreases heard.len(),
{
    if heard.len() == 0 {
        outcomes
    } else {
        recorded(
            family,
            attempts,
            collected(family, attempts, outcomes, heard.drop_last()),
            heard.last().0,
            heard.last().1,
            heard.last().2,
        )
    }
}

/// The answer that the arrivals in `heard` hold for `attempt`: that of the
/// first among them that answers it.
pub open spec fn first_answer(
    family: Family,
    attempt: Attempt,
    heard: Seq<(IpAddress, Seq<u8>, u64)>,
) -> Option<EkkoResponse>
    decreases heard.len(),
{
    if heard.len() == 0 {
        None
    } else {
        match first_answer(family, attempt, heard.drop_last()) {
            Some(answer) => Some(answer),
            None => if attempt.answered_by(family, heard.last().1) {
                Some(attempt.answer(family, heard.last().0, heard.last().1, heard.last().2))
            } else {
                None
            },
        }
    }
}

/// Whether a datagram with these bytes from this responder is among the
/// arrivals in `heard`, at whatever time.
pub open spec fn heard_from(
    heard: Seq<(IpAddress, Seq<u8>, u64)>,
    responder: IpAddress,
    datagram: Seq<u8>,
) -> bool {
    exists|k: int|
        0 <= k < heard.len() && (#[trigger] heard[k]).0 == responder && heard[k].1 == datagram
}

/// Whether two outcomes differ in nothing but the elapsed time: they are of
/// one variant, with the same detail, send time, responder, identifier,
/// sequence number and hop count.
pub open spec fn alike(left: EkkoResponse, right: EkkoResponse) -> bool {
    &&& left.spec_data().timepoint == right.spec_data().timepoint
    &&& left.spec_data().address == right.spec_data().address
    &&& left.spec_data().identifier == right.spec_data().identifier
    &&& left.spec_data().sequence == right.spec_data().sequence
    &&& left.spec_data().hops == right.spec_data().hops
    &&& match (left, right) {
        (EkkoResponse::Unreachable((_, a)), EkkoResponse::Unreachable((_, b))) => a == b,
        (EkkoResponse::PacketTooBig(_), EkkoResponse::PacketTooBig(_)) => true,
        (EkkoResponse::SourceQuench(_), EkkoResponse::SourceQuench(_)) => true,
        (EkkoResponse::Destination(_), EkkoResponse::Destination(_)) => true,
        (EkkoResponse::ParameterProblem((_, a)), EkkoResponse::ParameterProblem((_, b))) => a == b,
        (EkkoResponse::Unexpected((_, a)), EkkoResponse::Unexpected((_, b))) => a == b,
        (EkkoResponse::Redirect((_, a)), EkkoResponse::Redirect((_, b))) => a == b,
        (EkkoResponse::Exceeded(_), EkkoResponse::Exceeded(_)) => true,
        (EkkoResponse::Lacking(_), EkkoResponse::Lacking(_)) => true,
        _ => false,
    }
}

/// The time of arrival changes nothing in an answer but the elapsed time it
/// records.
pub proof fn lemma_answer_at_any_time(
    family: Family,
    attempt: Attempt,
    responder: IpAddress,
    datagram: Seq<u8>,
    sooner: u64,
    later: u64,
)
    requires
        responder.spec_family() == family,
        attempt.answered_by(family, datagram),
    ensures
        alike(
            attempt.answer(family, responder, datagram, sooner),
            attempt.answer(family, responder, datagram, later),
        ),
{
    lemma_answer_is_classified(family, attempt, responder, datagram, sooner);
    lemma_answer_is_classified(family, attempt, responder, datagram, later);
}

/// What a fresh trace has collected for an attempt is the first answer among
/// the arrivals.
pub proof fn lemma_collected_is_first_answer(
    family: Family,
    attempts: Seq<Attempt>,
    heard: Seq<(IpAddress, Seq<u8>, u64)>,
    index: int,
)
    requires
        0 <= index < attempts.len(),
    ensures
        collected(
            family,
            attempts,
            Seq::new(attempts.len(), |i: int| None::<EkkoResponse>),
            heard,
        ).len() == attempts.len(),
        collected(
            family,
            attempts,
            Seq::new(attempts.len(), |i: int| None::<EkkoResponse>),
            heard,
        )[index] == first_answer(family, attempts[index], heard),
    decreases heard.len(),
{
    if heard.len() > 0 {
        lemma_collected_is_first_answer(family, attempts, heard.drop_last(), index);
    }
}

/// The first answer among the arrivals is the answer that one of them is,
/// and there is none only where no arrival answers the attempt.
pub proof fn lemma_first_answer_is_heard(
    family: Family,
    attempt: Attempt,
    heard: Seq<(IpAddress, Seq<u8>, u64)>,
)
    ensures
        match first_answer(family, attempt, heard) {
            Some(answer) => exists|k: int|
                0 <= k < heard.len() && attempt.answered_by(family, (#[trigger] heard[k]).1)
                    && answer == attempt.answer(family, heard[k].0, heard[k].1, heard[k].2),
            None => forall|k: int|
                0 <= k < heard.len() ==> !attempt.answered_by(family, (#[trigger] heard[k]).1),
        },
    decreases heard.len(),
{
    if heard.len() > 0 {
        let front = heard.drop_last();
        lemma_first_answer_is_heard(family, attempt, front);
        match first_answer(family, attempt, front) {
            Some(answer) => {
                let k = choose|k: int|
                    0 <= k < front.len() && attempt.answered_by(family, (#[trigger] front[k]).1)
                        && answer == attempt.answer(family, front[k].0, front[k].1, front[k].2);
                assert(heard[k] == front[k]);
            },
            None => {
                if attempt.answered_by(family, heard.last().1) {
                    assert(heard[heard.len() - 1] == heard.last());
                } else {
                    assert forall|k: int| 0 <= k < heard.len() implies !attempt.answered_by(
                        family,
                        (#[trigger] heard[k]).1,
                    ) by {
                        if k < front.len() {
                            assert(heard[k] == front[k]);
                        }
                    }
                }
            },
        }
    }
}

/// Order of arrival: take two runs of one batch of attempts in which the
/// same datagrams arrive from the same responders of the engine's family,
/// in whatever order and at whatever times, and in which all arrivals that
/// answer one attempt are the same datagram from the same responder. Both
/// runs give a result of one outcome per attempt, and the outcomes of each
/// attempt differ in nothing but the elapsed time.
pub proof fn lemma_route_whatever_the_order(
    family: Family,
    attempts: Seq<Attempt>,
    first: Seq<(IpAddress, Seq<u8>, u64)>,
    second: Seq<(IpAddress, Seq<u8>, u64)>,
    first_end: u64,
    second_end: u64,
)
    requires
        forall|k: int| 0 <= k < first.len() ==> (#[trigger] first[k]).0.spec_family() == family,
        forall|k: int|
            0 <= k < first.len() ==> heard_from(second, (#[trigger] first[k]).0, first[k].1),
        forall|k: int|
            0 <= k < second.len() ==> heard_from(first, (#[trigger] second[k]).0, second[k].1),
        forall|i: int, k: int, m: int|
            0 <= i < attempts.len() && 0 <= k < first.len() && 0 <= m < first.len()
                && (#[trigger] attempts[i]).answered_by(family, (#[trigger] first[k]).1)
                && attempts[i].answered_by(family, (#[trigger] first[m]).1) ==> first[k].0
                == first[m].0 && first[k].1 == first[m].1,
    ensures
        ({
            let fresh = Seq::new(attempts.len(), |i: int| None::<EkkoResponse>);
            let left = route(attempts, collected(family, attempts, fresh, first), first_end);
            let right = route(attempts, collected(family, attempts, fresh, second), second_end);
            &&& left.len() == attempts.len()
            &&& right.len() == attempts.len()
            &&& forall|i: int| 0 <= i < attempts.len() ==> alike(#[trigger] left[i], right[i])
        }),
{
    let fresh = Seq::new(attempts.len(), |i: int| None::<EkkoResponse>);
    let left = route(attempts, collected(family, attempts, fresh, first), first_end);
    let right = route(attempts, collected(family, attempts, fresh, second), second_end);
    assert forall|i: int| 0 <= i < attempts.len() implies alike(#[trigger] left[i], right[i]) by {
        let attempt = attempts[i];
        lemma_collected_is_first_answer(family, attempts, first, i);
        lemma_collected_is_first_answer(family, attempts, second, i);
        lemma_first_answer_is_heard(family, attempt, first);
        lemma_first_answer_is_heard(family, attempt, second);
        match (first_answer(family, attempt, first), first_answer(family, attempt, second)) {
            (Some(a), Some(b)) => {
                let k = choose|k: int|
                    0 <= k < first.len() && attempt.answered_by(family, (#[trigger] first[k]).1)
                        && a == attempt.answer(family, first[k].0, first[k].1, first[k].2);
                let m = choose|m: int|
                    0 <= m < second.len() && attempt.answered_by(
                        family,
                        (#[trigger] second[m]).1,
                    ) && b == attempt.answer(family, second[m].0, second[m].1, second[m].2);
                assert(heard_from(first, second[m].0, second[m].1));
                let n = choose|n: int|
                    0 <= n < first.len() && (#[trigger] first[n]).0 == second[m].0 && first[n].1
                        == second[m].1;
                assert(attempts[i].answered_by(family, first[n].1));
                assert(first[k].0 == first[n].0 && first[k].1 == first[n].1);
                lemma_answer_at_any_time(
                    family,
                    attempt,
                    first[k].0,
                    first[k].1,
                    first[k].2,
                    second[m].2,
                );
            },
            (Some(a), None) => {
                let k = choose|k: int|
                    0 <= k < first.len() && attempt.answered_by(family, (#[trigger] first[k]).1)
                        && a == attempt.answer(family, first[k].0, first[k].1, first[k].2);
                assert(heard_from(second, first[k].0, first[k].1));
                let n = choose|n: int|
                    0 <= n < second.len() && (#[trigger] second[n]).0 == first[k].0
                        && second[n].1 == first[k].1;
                assert(attempt.answered_by(family, second[n].1));
            },
            (None, Some(b)) => {
                let m = choose|m: int|
                    0 <= m < second.len() && attempt.answered_by(
                        family,
                        (#[trigger] second[m]).1,
                    ) && b == attempt.answer(family, second[m].0, second[m].1, second[m].2);
                assert(heard_from(first, second[m].0, second[m].1));
                let n = choose|n: int|
                    0 <= n < first.len() && (#[trigger] first[n]).0 == second[m].0 && first[n].1
                        == second[m].1;
                assert(attempt.answered_by(family, first[n].1));
            },
            (None, None) => {},
        }
    }
}

/// Hop order: the result of a trace over the hop counts from `start` up to,
/// not including, `end` has one outcome for each hop count, in ascending
/// order of the hop counts, whichever answers were collected and in
/// whichever order they arrived.
pub proof fn lemma_route_in_hop_order(
    start: u32,
    end: u32,
    settings: EkkoSettings,
    timepoint: u64,
    outcomes: Seq<Option<EkkoResponse>>,
    elapsed: u64,
)
    requires
        start < end,
        consistent(planned(start, end, settings, timepoint), outcomes),
    ensures
        ({
            let list = route(planned(start, end, settings, timepoint), outcomes, elapsed);
            &&& list.len() == end - start
            &&& forall|i: int|
                0 <= i < list.len() ==> (#[trigger] list[i]).spec_data().hops == start + i
        }),
{
    let attempts = planned(start, end, settings, timepoint);
    let list = route(attempts, outcomes, elapsed);
    assert forall|i: int| 0 <= i < list.len() implies (#[trigger] list[i]).spec_data().hops
        == start + i by {
        assert(attempts[i].hops == start + i);
        if outcomes[i] is Some {
            assert(attempts[i].owns(outcomes[i]->Some_0));
        }
    }
}

/// Recording keeps what was collected: an attempt that has its answer keeps
/// it, whatever arrives later.
pub proof fn lemma_first_answer_stays(
    family: Family,
    attempts: Seq<Attempt>,
    outcomes: Seq<Option<EkkoResponse>>,
    responder: IpAddress,
    datagram: Seq<u8>,
    elapsed: u64,
    index: int,
)
    requires
        0 <= index < outcomes.len(),
        outcomes[index] is Some,
    ensures
        recorded(family, attempts, outcomes, responder, datagram, elapsed)[index]
            == outcomes[index],
{
}

/// Timeout: an attempt that no arrival answers stays open exactly while the
/// elapsed time is below the timeout; from then on it is lacking, with no
/// responder and with the elapsed time of the poll that gave it up, which is
/// never below the timeout.
pub proof fn lemma_lacking_not_before_timeout(
    family: Family,
    attempt: Attempt,
    arrival: Option<(IpAddress, Seq<u8>)>,
    elapsed: u64,
    timeout: u64,
)
    requires
        arrival matches Some((_, datagram)) ==> !attempt.answered_by(family, datagram),
    ensures
        elapsed < timeout <==> verdict(family, attempt, arrival, elapsed, timeout) is None,
        elapsed >= timeout ==> verdict(family, attempt, arrival, elapsed, timeout) == Some(
            attempt.spec_lacking(elapsed),
        ),
        attempt.spec_lacking(elapsed).spec_data().elapsed == elapsed,
        attempt.spec_lacking(elapsed).spec_data().address == None::<IpAddress>,
        attempt.spec_lacking(elapsed) is Lacking,
{
}

} // verus!
