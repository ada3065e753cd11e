use traceroute::addr::{pick_destination, IpAddress};
use traceroute::error::ErrorKind;
use traceroute::hop::{HopEvent, HopProber};
use traceroute::session::{HopOutcome, TraceSession};

fn loopback() -> IpAddress {
    IpAddress::V4(0x7f000001)
}
const TIMEOUT: u64 = 3000;

fn run_hop(dest: IpAddress, ttl: u8, events: &[HopEvent]) -> HopOutcome {
    let mut p = HopProber::new(dest, ttl, 0, 1, TIMEOUT, 64);
    let mut i: usize = 0;
    loop {
        if let Some(outcome) = p.outcome() {
            return outcome;
        }
        p.step(events[i]);
        i += 1;
    }
}

fn reply_events(icmp_type: u8, source: IpAddress, at: u64) -> Vec<HopEvent> {
    vec![
        HopEvent::ChannelOpened,
        HopEvent::HopLimitSet,
        HopEvent::ProbeSent { at: 0 },
        HopEvent::MessageArrived { icmp_type, source, at },
    ]
}

fn silence_events() -> Vec<HopEvent> {
    vec![
        HopEvent::ChannelOpened,
        HopEvent::HopLimitSet,
        HopEvent::ProbeSent { at: 0 },
        HopEvent::NoMessage { at: TIMEOUT },
    ]
}

#[test]
fn loopback_destination_reached_at_ttl_one() {
    // Destination is the loopback address: the very first hop answers with
    // an echo reply from the destination itself and the session stops at
    // length 1.
    let mut session = TraceSession::new(loopback(), 30, TIMEOUT);
    assert_eq!(session.next_ttl(), Some(1));
    let outcome = run_hop(loopback(), 1, &reply_events(0, loopback(), 1));
    assert_eq!(outcome, HopOutcome::Reached { source: loopback(), elapsed: 1 });
    session.record(outcome);
    assert_eq!(session.next_ttl(), None);
    assert_eq!(session.outcomes.len(), 1);
}

#[test]
fn three_intermediate_hops_then_silence() {
    // Three routers answer with time-exceeded, the destination never
    // replies, and the maximum time-to-live is 5: the outcomes are three
    // Intermediate then two TimedOut, and the session runs to length 5.
    let dest = IpAddress::V4(0xc0a80077);
    let routers = [
        IpAddress::V4(0x0a000001),
        IpAddress::V4(0x0a000002),
        IpAddress::V4(0x0a000003),
    ];
    let mut session = TraceSession::new(dest, 5, TIMEOUT);
    let mut attempted = Vec::new();
    while let Some(ttl) = session.next_ttl() {
        attempted.push(ttl);
        let outcome = if ttl <= 3 {
            run_hop(dest, ttl, &reply_events(11, routers[(ttl - 1) as usize], 20))
        } else {
            run_hop(dest, ttl, &silence_events())
        };
        session.record(outcome);
    }
    assert_eq!(attempted, vec![1, 2, 3, 4, 5]);
    assert_eq!(
        session.outcomes,
        vec![
            HopOutcome::Intermediate { source: routers[0], elapsed: 20 },
            HopOutcome::Intermediate { source: routers[1], elapsed: 20 },
            HopOutcome::Intermediate { source: routers[2], elapsed: 20 },
            HopOutcome::TimedOut,
            HopOutcome::TimedOut,
        ]
    );
}

#[test]
fn unresolvable_destination_selects_nothing() {
    // A destination that resolves to no address yields no selection, so no
    // session is opened and no hop is probed.
    let resolved: Vec<IpAddress> = Vec::new();
    assert_eq!(pick_destination(&resolved), None);
}

#[test]
fn selection_policy_favours_last_result() {
    let resolved = vec![
        IpAddress::V4(0x01010101),
        IpAddress::V6(0x20010db8_00000000_00000000_00000001),
        IpAddress::V4(0x08080808),
    ];
    assert_eq!(pick_destination(&resolved), Some(IpAddress::V4(0x08080808)));
}

#[test]
fn channel_denied_at_every_hop_runs_to_max_ttl() {
    // The channel cannot be opened at any hop: every time-to-live from 1 to
    // the maximum fails with the channel-open reason, and the session still
    // runs to the end.
    let dest = IpAddress::V4(0x0a0a0a0a);
    let mut session = TraceSession::new(dest, 4, TIMEOUT);
    while let Some(ttl) = session.next_ttl() {
        let outcome = run_hop(dest, ttl, &[HopEvent::ChannelDenied]);
        session.record(outcome);
    }
    assert_eq!(session.outcomes.len(), 4);
    for outcome in &session.outcomes {
        assert_eq!(
            *outcome,
            HopOutcome::Failed { reason: ErrorKind::ChannelOpenDenied }
        );
        assert_eq!(
            match outcome {
                HopOutcome::Failed { reason } => reason.message(),
                _ => "",
            },
            "channel open denied"
        );
    }
}

#[test]
fn session_of_one_hop_finishes_after_one_outcome() {
    let mut session = TraceSession::new(loopback(), 1, TIMEOUT);
    assert_eq!(session.next_ttl(), Some(1));
    session.record(HopOutcome::TimedOut);
    assert_eq!(session.next_ttl(), None);
    assert_eq!(session.outcomes, vec![HopOutcome::TimedOut]);
}

#[test]
fn reached_stops_the_session_early() {
    let dest = IpAddress::V6(1);
    let mut session = TraceSession::new(dest, 30, TIMEOUT);
    session.record(HopOutcome::Intermediate { source: IpAddress::V6(2), elapsed: 7 });
    assert_eq!(session.next_ttl(), Some(2));
    session.record(HopOutcome::Reached { source: dest, elapsed: 9 });
    assert_eq!(session.next_ttl(), None);
    assert_eq!(session.outcomes.len(), 2);
}
