//! One hop, as a state machine: build, send, wait with a deadline, classify.
//!
//! The prober holds the decision logic of a single hop.  The caller performs
//! the outside work — opening the raw channel, setting the hop limit,
//! transmitting the probe, pulling inbound messages — and feeds the result of
//! each action back as an event; `step` computes the next state.  Time enters
//! only through the events, as ticks of the caller's monotonic clock, so the
//! deadline arbitration is verified without a real clock.

use vstd::prelude::*;
use crate::addr::IpAddress;
use crate::error::ErrorKind;
use crate::listener::classify_spec;
use crate::checksum::MAX_DATAGRAM_LEN;
use crate::probe::{build_probe, Probe, ECHO_HEADER_LEN};
use crate::session::HopOutcome;

verus! {

/// Where a hop stands.  Terminal is `Done`.
#[derive(Clone, Copy, Debug, PartialEq, Eq, Structural)]
pub enum HopPhase {
    /// The raw network-layer channel is being opened.
    OpeningChannel,
    /// The channel is open; the hop limit is being set.
    SettingHopLimit,
    /// The hop limit is set; the probe is being transmitted.
    SendingProbe,
    /// The probe is in flight; replies are awaited until `deadline`, which
    /// is `send_time` plus the per-hop timeout and is never moved.
    WaitingForReply { send_time: u64, deadline: u64 },
    /// The hop has its outcome.
    Done { outcome: HopOutcome },
}

/// What the outside work reported back.  Times are ticks of a monotonic
/// clock and never decrease from one event to the next.
#[derive(Clone, Copy, Debug, PartialEq, Eq, Structural)]
pub enum HopEvent {
    /// The channel was opened.
    ChannelOpened,
    /// The channel could not be created (for example, for want of
    /// privilege).
    ChannelDenied,
    /// The hop limit was applied to the channel.
    HopLimitSet,
    /// The channel rejected the hop limit.
    HopLimitRejected,
    /// The probe left at time `at`.
    ProbeSent { at: u64 },
    /// The probe could not be transmitted.
    SendFailed,
    /// An inbound ICMP message with type byte `icmp_type` arrived from
    /// `source` at time `at`.
    MessageArrived { icmp_type: u8, source: IpAddress, at: u64 },
    /// No message had arrived when the pull gave up at time `at`.
    NoMessage { at: u64 },
}

/// The outside work the caller must perform next.
#[derive(Clone, Copy, Debug, PartialEq, Eq, Structural)]
pub enum HopAction {
    /// Open a raw network-layer channel.
    OpenChannel,
    /// Set the channel's hop limit to `ttl`.
    SetHopLimit { ttl: u8 },
    /// Transmit the probe to the destination.
    SendProbe,
    /// Pull the next inbound message, blocking no later than `deadline`.
    WaitForReply { deadline: u64 },
    /// The hop is decided; nothing is left to do.
    Finish,
}

/// The state machine for probing a single hop.
pub struct HopProber {
    /// The address the session probes towards.
    pub destination: IpAddress,
    /// This hop's time-to-live: at least 1.
    pub ttl: u8,
    /// The per-hop timeout in clock ticks.
    pub timeout: u64,
    /// The probe to transmit; `None` only when building it failed.
    pub probe: Option<Probe>,
    /// Where the hop stands.
    pub phase: HopPhase,
}

impl HopProber {
    /// The prober invariant: a probe exists and is well formed in every
    /// phase that still needs it, and a wait deadline is exactly the send
    /// time plus the timeout.
    pub open spec fn wf(self) -> bool {
        &&& 1 <= self.ttl
        &&& match self.phase {
            HopPhase::OpeningChannel | HopPhase::SettingHopLimit | HopPhase::SendingProbe => {
                self.probe matches Some(p) && p.wf() && p.ttl == self.ttl
            },
            HopPhase::WaitingForReply { send_time, deadline } => {
                &&& self.probe matches Some(p) && p.wf() && p.ttl == self.ttl
                &&& deadline == send_time + self.timeout
            },
            HopPhase::Done { .. } => true,
        }
    }

    /// Which events the current phase can answer: each reports the result
    /// of the action the phase asked for, with times that fit the machine's
    /// arithmetic and a monotonic clock.
    pub open spec fn admits(self, ev: HopEvent) -> bool {
        match self.phase {
            HopPhase::OpeningChannel => ev is ChannelOpened || ev is ChannelDenied,
            HopPhase::SettingHopLimit => ev is HopLimitSet || ev is HopLimitRejected,
            HopPhase::SendingProbe => (ev matches HopEvent::ProbeSent { at } && at + self.timeout
                <= u64::MAX) || ev is SendFailed,
            HopPhase::WaitingForReply { send_time, .. } => {
                ||| (ev matches HopEvent::MessageArrived { at, .. } && at >= send_time)
                ||| ev is NoMessage
            },
            HopPhase::Done { .. } => false,
        }
    }

    /// The transition relation of the hop state machine.
    ///
    /// A classified message — time-exceeded or echo-reply — that arrives
    /// strictly before the deadline decides the hop: `Reached` when its
    /// source is the destination, `Intermediate` otherwise, with the elapsed
    /// time measured from the send.  An `Other` message leaves the phase
    /// untouched: the deadline is neither extended nor reset.  A pull that
    /// comes back empty at or past the deadline times the hop out.
    pub open spec fn next_phase(self, ev: HopEvent) -> HopPhase
        recommends
            self.admits(ev),
    {
        match self.phase {
            HopPhase::OpeningChannel => match ev {
                HopEvent::ChannelOpened => HopPhase::SettingHopLimit,
                _ => HopPhase::Done {
                    outcome: HopOutcome::Failed { reason: ErrorKind::ChannelOpenDenied },
                },
            },
            HopPhase::SettingHopLimit => match ev {
                HopEvent::HopLimitSet => HopPhase::SendingProbe,
                _ => HopPhase::Done { outcome: HopOutcome::Failed { reason: ErrorKind::InvalidTtl } },
            },
            HopPhase::SendingProbe => match ev {
                HopEvent::ProbeSent { at } => HopPhase::WaitingForReply {
                    send_time: at,
                    deadline: (at + self.timeout) as u64,
                },
                _ => HopPhase::Done { outcome: HopOutcome::Failed { reason: ErrorKind::SendFailed } },
            },
            HopPhase::WaitingForReply { send_time, deadline } => match ev {
                HopEvent::MessageArrived { icmp_type, source, at } => {
                    if classify_spec(icmp_type) is Other {
                        self.phase
                    } else if at >= deadline {
                        HopPhase::Done { outcome: HopOutcome::TimedOut }
                    } else if source == self.destination {
                        HopPhase::Done {
                            outcome: HopOutcome::Reached {
                                source,
                                elapsed: (at - send_time) as u64,
                            },
                        }
                    } else {
                        HopPhase::Done {
                            outcome: HopOutcome::Intermediate {
                                source,
                                elapsed: (at - send_time) as u64,
                            },
                        }
                    }
                },
                HopEvent::NoMessage { at } => if at >= deadline {
                    HopPhase::Done { outcome: HopOutcome::TimedOut }
                } else {
                    self.phase
                },
                _ => self.phase,
            },
            HopPhase::Done { .. } => self.phase,
        }
    }

    /// Starts a hop: builds the probe and asks for a channel.  A buffer too
    /// small for a minimal echo-request header decides the hop at once; the
    /// buffer cannot exceed what one IP packet carries.
    pub fn new(
        destination: IpAddress,
        ttl: u8,
        identifier: u16,
        sequence: u16,
        timeout: u64,
        buffer_len: usize,
    ) -> (p: HopProber)
        requires
            1 <= ttl,
            buffer_len <= MAX_DATAGRAM_LEN,
        ensures
            p.wf(),
            p.destination == destination,
            p.ttl == ttl,
            p.timeout == timeout,
            buffer_len < ECHO_HEADER_LEN ==> p.phase == (HopPhase::Done {
                outcome: HopOutcome::Failed { reason: ErrorKind::BufferTooSmall },
            }),
            buffer_len >= ECHO_HEADER_LEN ==> p.phase == HopPhase::OpeningChannel && (p.probe
                matches Some(pr) && pr.wf() && pr.ttl == ttl && pr.identifier == identifier
                && pr.sequence == sequence && pr.bytes@.len() == buffer_len),
    {
        match build_probe(ttl, identifier, sequence, buffer_len) {
            Ok(probe) => HopProber {
                destination,
                ttl,
                timeout,
                probe: Some(probe),
                phase: HopPhase::OpeningChannel,
            },
            Err(reason) => HopProber {
                destination,
                ttl,
                timeout,
                probe: None,
                phase: HopPhase::Done { outcome: HopOutcome::Failed { reason } },
            },
        }
    }

    /// The outside work the caller must perform for the current phase.
    pub fn current_action(&self) -> (a: HopAction)
        ensures
            self.phase is OpeningChannel ==> a == HopAction::OpenChannel,
            self.phase is SettingHopLimit ==> a == (HopAction::SetHopLimit { ttl: self.ttl }),
            self.phase is SendingProbe ==> a == HopAction::SendProbe,
            self.phase matches HopPhase::WaitingForReply { deadline, .. } ==> a == (
            HopAction::WaitForReply { deadline }),
            self.phase is Done ==> a == HopAction::Finish,
    {
        match self.phase {
            HopPhase::OpeningChannel => HopAction::OpenChannel,
            HopPhase::SettingHopLimit => HopAction::SetHopLimit { ttl: self.ttl },
            HopPhase::SendingProbe => HopAction::SendProbe,
            HopPhase::WaitingForReply { deadline, .. } => HopAction::WaitForReply { deadline },
            HopPhase::Done { .. } => HopAction::Finish,
        }
    }

    /// The hop's outcome, once it is decided.
    pub fn outcome(&self) -> (o: Option<HopOutcome>)
        ensures
            self.phase matches HopPhase::Done { outcome } ==> o == Some(outcome),
            !(self.phase is Done) ==> o is None,
    {
        match self.phase {
            HopPhase::Done { outcome } => Some(outcome),
            _ => None,
        }
    }

    /// Advances the machine on the event that answers the current action.
    pub fn step(&mut self, ev: HopEvent)
        requires
            old(self).wf(),
            old(self).admits(ev),
        ensures
            final(self).wf(),
            final(self).phase == old(self).next_phase(ev),
            final(self).destination == old(self).destination,
            final(self).ttl == old(self).ttl,
            final(self).timeout == old(self).timeout,
            final(self).probe == old(self).probe,
    {
        let next = match self.phase {
            HopPhase::OpeningChannel => match ev {
                HopEvent::ChannelOpened => HopPhase::SettingHopLimit,
                _ => HopPhase::Done {
                    outcome: HopOutcome::Failed { reason: ErrorKind::ChannelOpenDenied },
                },
            },
            HopPhase::SettingHopLimit => match ev {
                HopEvent::HopLimitSet => HopPhase::SendingProbe,
                _ => HopPhase::Done { outcome: HopOutcome::Failed { reason: ErrorKind::InvalidTtl } },
            },
            HopPhase::SendingProbe => match ev {
                HopEvent::ProbeSent { at } => HopPhase::WaitingForReply {
                    send_time: at,
                    deadline: at + self.timeout,
                },
                _ => HopPhase::Done { outcome: HopOutcome::Failed { reason: ErrorKind::SendFailed } },
            },
            HopPhase::WaitingForReply { send_time, deadline } => match ev {
                HopEvent::MessageArrived { icmp_type, source, at } => {
                    match crate::listener::classify_icmp_type(icmp_type) {
                        crate::listener::IcmpClass::Other => self.phase,
                        _ => if at >= deadline {
                            HopPhase::Done { outcome: HopOutcome::TimedOut }
                        } else if source == self.destination {
                            HopPhase::Done {
                                outcome: HopOutcome::Reached {
                                    source,
                                    elapsed: at - send_time,
                                },
                            }
                        } else {
                            HopPhase::Done {
                                outcome: HopOutcome::Intermediate {
                                    source,
                                    elapsed: at - send_time,
                                },
                            }
                        },
                    }
                },
                HopEvent::NoMessage { at } => if at >= deadline {
                    HopPhase::Done { outcome: HopOutcome::TimedOut }
                } else {
                    self.phase
                },
                _ => self.phase,
            },
            HopPhase::Done { .. } => self.phase,
        };
        self.phase = next;
    }

    /// The phase after a whole sequence of events, first event first.
    pub open spec fn phase_after(self, evs: Seq<HopEvent>) -> HopPhase
        decreases evs.len(),
    {
        if evs.len() == 0 {
            self.phase
        } else {
            (HopProber { phase: self.next_phase(evs[0]), ..self }).phase_after(evs.skip(1))
        }
    }
}

/// A pull that decides nothing: a message classified `Other`, or an empty
/// pull strictly before the deadline.
pub open spec fn undecided_event(ev: HopEvent, deadline: u64) -> bool {
    ||| (ev matches HopEvent::MessageArrived { icmp_type, .. } && classify_spec(icmp_type)
        is Other)
    ||| (ev matches HopEvent::NoMessage { at } && at < deadline)
}

/// Messages classified `Other` never extend or reset the deadline: a waiting
/// prober fed any sequence of undecided pulls is still waiting, with the
/// send time and the deadline it started with.
pub proof fn lemma_deadline_never_moved(p: HopProber, evs: Seq<HopEvent>, send_time: u64, deadline: u64)
    requires
        p.phase == (HopPhase::WaitingForReply { send_time, deadline }),
        forall|i: int| 0 <= i < evs.len() ==> undecided_event(#[trigger] evs[i], deadline),
    ensures
        p.phase_after(evs) == p.phase,
    decreases evs.len(),
{
    if evs.len() > 0 {
        assert(p.next_phase(evs[0]) == p.phase);
        let stepped = HopProber { phase: p.next_phase(evs[0]), ..p };
        assert(stepped == p);
        lemma_deadline_never_moved(stepped, evs.skip(1), send_time, deadline);
    }
}

/// A classified message — time-exceeded or echo-reply — observed strictly
/// before the deadline decides the hop: `Reached` when its source is the
/// destination, `Intermediate` otherwise, with the elapsed time measured
/// from the send.
pub proof fn lemma_classified_before_deadline(
    p: HopProber,
    icmp_type: u8,
    source: IpAddress,
    at: u64,
    send_time: u64,
    deadline: u64,
)
    requires
        p.phase == (HopPhase::WaitingForReply { send_time, deadline }),
        !(classify_spec(icmp_type) is Other),
        send_time <= at < deadline,
    ensures
        source == p.destination ==> p.next_phase(
            HopEvent::MessageArrived { icmp_type, source, at },
        ) == (HopPhase::Done {
            outcome: HopOutcome::Reached { source, elapsed: (at - send_time) as u64 },
        }),
        source != p.destination ==> p.next_phase(
            HopEvent::MessageArrived { icmp_type, source, at },
        ) == (HopPhase::Done {
            outcome: HopOutcome::Intermediate { source, elapsed: (at - send_time) as u64 },
        }),
{
}

/// When no classified message was observed and a pull comes back at or past
/// the deadline, the hop times out.
pub proof fn lemma_timed_out_at_deadline(p: HopProber, at: u64, send_time: u64, deadline: u64)
    requires
        p.phase == (HopPhase::WaitingForReply { send_time, deadline }),
        at >= deadline,
    ensures
        p.next_phase(HopEvent::NoMessage { at }) == (HopPhase::Done {
            outcome: HopOutcome::TimedOut,
        }),
{
}

} // verus!
