//! Waiting for a TCP connection that was started without blocking.
//!
//! Each poll reports a batch of events. For every event the socket error is
//! taken first and then the peer address is asked for; both replies decide
//! whether the socket is connected, broken, or still to be waited for.

use super::readiness::{Batch, Readiness, SSH_TOKEN};
use vstd::prelude::*;

verus! {

/// Seconds after which a poll gives up waiting; the wait then starts again.
pub const TCP_TIMEOUT_SECS: u64 = 10;

/// The operating system's code for a connection that is still being made.
pub const EINPROGRESS: i32 = 115;

/// What taking the pending socket error brought.
#[derive(Debug, Clone, Copy, PartialEq, Eq, Structural)]
pub enum TakenError {
    /// The error could not be taken.
    Failed,
    /// An error was pending.
    Pending,
    /// No error was pending.
    Clear,
}

/// What asking for the peer address brought.
#[derive(Debug, Clone, Copy, PartialEq, Eq, Structural)]
pub enum PeerReply {
    /// The address is known.
    Address,
    /// It is not, with the kind and the code of the error.
    Failed { not_connected: bool, os_code: Option<i32> },
}

/// What the check waits for, or how it ended.
#[derive(Debug, Clone, Copy, PartialEq, Eq, Structural)]
pub enum CheckStage {
    /// A poll for readable or writable events.
    Poll,
    /// The pending socket error.
    SocketError,
    /// The peer address.
    PeerAddress,
    /// The check is over. The socket has to leave the poll's registry first
    /// where `deregister` is set.
    Finished { connected: bool, deregister: bool },
    /// An event came for a token that is not registered.
    Foreign,
}

/// What came of the step that a [`CheckStage`] waited for.
#[derive(Debug)]
pub enum CheckEvent {
    PollFailed,
    Polled(Vec<Readiness>),
    SocketError(TakenError),
    Peer(PeerReply),
}

/// [`CheckEvent`] with its events as a sequence.
pub enum CheckEventView {
    PollFailed,
    Polled(Seq<Readiness>),
    SocketError(TakenError),
    Peer(PeerReply),
}

impl View for CheckEvent {
    type V = CheckEventView;

    open spec fn view(&self) -> CheckEventView {
        match *self {
            CheckEvent::PollFailed => CheckEventView::PollFailed,
            CheckEvent::Polled(events) => CheckEventView::Polled(events@),
            CheckEvent::SocketError(taken) => CheckEventView::SocketError(taken),
            CheckEvent::Peer(reply) => CheckEventView::Peer(reply),
        }
    }
}

/// A connection check under way.
#[derive(Debug)]
pub struct Check {
    stage: CheckStage,
    batch: Batch,
}

/// A check's stage and the events that are still to be looked at, the current
/// one first.
pub struct CheckView {
    pub stage: CheckStage,
    pub batch: Seq<Readiness>,
}

impl View for Check {
    type V = CheckView;

    closed spec fn view(&self) -> CheckView {
        CheckView { stage: self.stage, batch: self.batch@ }
    }
}

/// The reply says that the connection is still being made.
pub open spec fn still_connecting(reply: PeerReply) -> bool {
    match reply {
        PeerReply::Address => false,
        PeerReply::Failed { not_connected, os_code } => not_connected || os_code == Some(
            EINPROGRESS,
        ),
    }
}

/// Looking at the first event of `batch`: poll again when there is none.
pub open spec fn look(batch: Seq<Readiness>) -> CheckView {
    let stage = if batch.len() == 0 {
        CheckStage::Poll
    } else if batch[0].is_down() {
        CheckStage::Finished { connected: false, deregister: false }
    } else if batch[0].token == SSH_TOKEN {
        CheckStage::SocketError
    } else {
        CheckStage::Foreign
    };
    CheckView { stage, batch }
}

impl CheckView {
    /// The check at its start.
    pub open spec fn start() -> CheckView {
        CheckView { stage: CheckStage::Poll, batch: Seq::empty() }
    }

    /// `event` is a reply to what this stage waits for.
    pub open spec fn awaits(self, event: CheckEventView) -> bool {
        match event {
            CheckEventView::PollFailed | CheckEventView::Polled(_) => self.stage is Poll,
            CheckEventView::SocketError(_) => self.stage is SocketError,
            CheckEventView::Peer(_) => self.stage is PeerAddress,
        }
    }

    /// There is a current event while its socket is being asked about.
    pub open spec fn valid(self) -> bool {
        self.stage is SocketError || self.stage is PeerAddress ==> self.batch.len() > 0
    }

    /// The check after `event`.
    pub open spec fn after(self, event: CheckEventView) -> CheckView {
        match event {
            CheckEventView::PollFailed => CheckView {
                stage: CheckStage::Finished { connected: false, deregister: false },
                ..self
            },
            CheckEventView::Polled(events) => look(events),
            CheckEventView::SocketError(TakenError::Clear) => CheckView {
                stage: CheckStage::PeerAddress,
                ..self
            },
            CheckEventView::SocketError(_) => CheckView {
                stage: CheckStage::Finished { connected: false, deregister: true },
                ..self
            },
            CheckEventView::Peer(reply) => if still_connecting(reply) {
                look(self.batch.drop_first())
            } else {
                CheckView {
                    stage: CheckStage::Finished {
                        connected: reply is Address,
                        deregister: true,
                    },
                    ..self
                }
            },
        }
    }
}

/// The check after all of `events`, in order; `None` where one of them did not
/// answer the stage it met.
pub open spec fn check_run(events: Seq<CheckEventView>) -> Option<CheckView>
    decreases events.len(),
{
    if events.len() == 0 {
        Some(CheckView::start())
    } else {
        match check_run(events.drop_last()) {
            Some(check) => if check.awaits(events.last()) {
                Some(check.after(events.last()))
            } else {
                None
            },
            None => None,
        }
    }
}

impl Check {
    #[verifier::type_invariant]
    spec fn has_current_event(self) -> bool {
        self@.valid()
    }

    /// A check that is about to poll.
    pub fn new() -> (check: Check)
        ensures
            check@ == CheckView::start(),
    {
        Check { stage: CheckStage::Poll, batch: Batch::empty() }
    }

    /// What the check waits for, or how it ended.
    pub fn stage(&self) -> (stage: CheckStage)
        ensures
            stage == self@.stage,
    {
        self.stage
    }

    /// Looks at the first event of a batch.
    fn look(batch: Batch) -> (check: Check)
        ensures
            check@ == look(batch@),
    {
        let stage = match batch.first() {
            None => CheckStage::Poll,
            Some(event) => if event.down() {
                CheckStage::Finished { connected: false, deregister: false }
            } else if event.token == SSH_TOKEN {
                CheckStage::SocketError
            } else {
                CheckStage::Foreign
            },
        };
        Check { stage, batch }
    }

    /// Takes in the reply to what the current stage waits for.
    pub fn check_connected(self, event: CheckEvent) -> (check: Check)
        requires
            self@.awaits(event@),
        ensures
            check@ == self@.after(event@),
    {
        proof {
            use_type_invariant(&self);
        }
        match event {
            CheckEvent::PollFailed => Check {
                stage: CheckStage::Finished { connected: false, deregister: false },
                batch: self.batch,
            },
            CheckEvent::Polled(events) => Check::look(Batch::new(events)),
            CheckEvent::SocketError(TakenError::Clear) => Check {
                stage: CheckStage::PeerAddress,
                batch: self.batch,
            },
            CheckEvent::SocketError(_) => Check {
                stage: CheckStage::Finished { connected: false, deregister: true },
                batch: self.batch,
            },
            CheckEvent::Peer(PeerReply::Address) => Check {
                stage: CheckStage::Finished { connected: true, deregister: true },
                batch: self.batch,
            },
            CheckEvent::Peer(PeerReply::Failed { not_connected, os_code }) => {
                let in_progress = match os_code {
                    Some(code) => code == EINPROGRESS,
                    None => false,
                };
                if not_connected || in_progress {
                    Check::look(self.batch.rest())
                } else {
                    Check {
                        stage: CheckStage::Finished { connected: false, deregister: true },
                        batch: self.batch,
                    }
                }
            },
        }
    }
}

/// A check finds the socket connected only when no socket error was pending
/// and the peer address was then known.
pub proof fn connected_needs_a_clear_socket_and_a_peer(events: Seq<CheckEventView>)
    requires
        check_run(events) matches Some(check) && check.stage matches CheckStage::Finished {
            connected,
            ..
        } && connected,
    ensures
        events.len() >= 3,
        events.last() == CheckEventView::Peer(PeerReply::Address),
        events[events.len() - 2] == CheckEventView::SocketError(TakenError::Clear),
{
    let earlier = events.drop_last();
    let first = earlier.drop_last();
    assert(check_run(earlier).unwrap().stage is PeerAddress);
    assert(check_run(first).unwrap().stage is SocketError);
}

/// The socket has to leave the registry exactly where a reply of the socket
/// itself ended the check, not where a poll or an event did.
pub proof fn registry_is_left_after_asking_the_socket(events: Seq<CheckEventView>)
    requires
        check_run(events) matches Some(check) && check.stage is Finished,
    ensures
        events.len() > 0,
        check_run(events).unwrap().stage->deregister <==> match events.last() {
            CheckEventView::SocketError(_) => true,
            CheckEventView::Peer(reply) => !still_connecting(reply),
            _ => false,
        },
{
}

/// One poll that reports one sound event of the SSH socket, without a pending
/// error: the check polls again while the connection is still being made, and
/// otherwise ends, with success exactly where the peer address is known.
pub proof fn one_round_decides(check: CheckView, event: Readiness, reply: PeerReply)
    requires
        check.stage is Poll,
        event.token == SSH_TOKEN,
        !event.is_down(),
    ensures
        ({
            let polled = CheckEventView::Polled(seq![event]);
            let clear = CheckEventView::SocketError(TakenError::Clear);
            let peer = CheckEventView::Peer(reply);
            let asked = check.after(polled).after(clear);
            &&& check.awaits(polled)
            &&& check.after(polled).awaits(clear)
            &&& asked.awaits(peer)
            &&& asked.after(peer).stage == (if still_connecting(reply) {
                CheckStage::Poll
            } else {
                CheckStage::Finished { connected: reply is Address, deregister: true }
            })
        }),
{
}

/// A check that polls takes any outcome of a poll. A failed poll ends it, and a
/// poll without events is made again.
pub proof fn polling_goes_on_until_there_is_an_event(
    check: Check,
    events: Vec<Readiness>,
    failed: Check,
    polled: Check,
)
    requires
        check@.stage is Poll,
        call_ensures(Check::check_connected, (check, CheckEvent::PollFailed), failed),
        call_ensures(Check::check_connected, (check, CheckEvent::Polled(events)), polled),
    ensures
        call_requires(Check::check_connected, (check, CheckEvent::PollFailed)),
        call_requires(Check::check_connected, (check, CheckEvent::Polled(events))),
        failed@.stage == (CheckStage::Finished { connected: false, deregister: false }),
        polled@.stage is Poll <==> events@.len() == 0,
{
}

/// A poll whose first event has any flag against the socket ends the check
/// without a connection, whatever else the event or the poll says.
pub proof fn flag_against_the_socket_ends_the_check(
    check: Check,
    events: Vec<Readiness>,
    next: Check,
)
    requires
        check@.stage is Poll,
        call_ensures(Check::check_connected, (check, CheckEvent::Polled(events)), next),
        events@.len() > 0,
        events@[0].error || events@[0].read_closed || events@[0].write_closed,
    ensures
        next@.stage == (CheckStage::Finished { connected: false, deregister: false }),
{
}

/// A poll whose first event has no flag against the socket leads to asking the
/// socket for its error, provided the event is for the only token there is,
/// which is 0. The events stay as the poll reported them.
pub proof fn sound_event_leads_to_the_socket(check: Check, events: Vec<Readiness>, next: Check)
    requires
        check@.stage is Poll,
        call_ensures(Check::check_connected, (check, CheckEvent::Polled(events)), next),
        events@.len() > 0,
        !events@[0].error,
        !events@[0].read_closed,
        !events@[0].write_closed,
    ensures
        next@.stage is SocketError <==> events@[0].token == 0,
        next@.stage is Foreign <==> events@[0].token != 0,
        next@.batch == events@,
{
}

/// The peer is asked for only where no socket error was pending. Any other
/// outcome ends the check without a connection and takes the socket out of the
/// registry.
pub proof fn socket_error_ends_the_check(check: Check, taken: TakenError, next: Check)
    requires
        check@.stage is SocketError,
        call_ensures(Check::check_connected, (check, CheckEvent::SocketError(taken)), next),
    ensures
        call_requires(Check::check_connected, (check, CheckEvent::SocketError(taken))),
        taken is Clear ==> next@.stage is PeerAddress && next@.batch == check@.batch,
        !(taken is Clear) ==> next@.stage == (CheckStage::Finished {
            connected: false,
            deregister: true,
        }),
{
}

/// A known peer address means that the socket is connected, and nothing else
/// does. An error that does not say that the connection is still being made
/// (not connected, or code 115) ends the check without one. Either way the
/// socket leaves the registry.
pub proof fn peer_decides_the_connection(check: Check, reply: PeerReply, next: Check)
    requires
        check@.stage is PeerAddress,
        call_ensures(Check::check_connected, (check, CheckEvent::Peer(reply)), next),
    ensures
        call_requires(Check::check_connected, (check, CheckEvent::Peer(reply))),
        reply is Address ==> next@.stage == (CheckStage::Finished {
            connected: true,
            deregister: true,
        }),
        reply matches PeerReply::Failed { not_connected, os_code } && !not_connected && os_code
            != Some(115i32) ==> next@.stage == (CheckStage::Finished {
            connected: false,
            deregister: true,
        }),
        next@.stage matches CheckStage::Finished { connected, .. } && connected ==> reply
            is Address,
{
}

/// A connection that is still being made is waited for: the check goes on as
/// though a poll had reported the events behind the current one.
pub proof fn connecting_socket_is_waited_for(
    check: Check,
    not_connected: bool,
    os_code: Option<i32>,
    next: Check,
    polling: Check,
    later: Vec<Readiness>,
    polled: Check,
)
    requires
        check@.stage is PeerAddress,
        not_connected || os_code == Some(115i32),
        call_ensures(
            Check::check_connected,
            (check, CheckEvent::Peer(PeerReply::Failed { not_connected, os_code })),
            next,
        ),
        later@ == check@.batch.drop_first(),
        polling@.stage is Poll,
        call_ensures(Check::check_connected, (polling, CheckEvent::Polled(later)), polled),
    ensures
        next@ == polled@,
        check@.batch.len() == 1 ==> next@.stage is Poll,
{
}

/// A check starts with a poll, and shows the stage that it is in.
pub proof fn check_starts_with_a_poll(check: Check, stage: CheckStage)
    requires
        call_ensures(Check::new, (), check),
        call_ensures(Check::stage, (&check,), stage),
    ensures
        stage is Poll,
        check@.batch.len() == 0,
{
}

/// Any number of sound events for which the connection was still being made are
/// passed over, and the first event behind them with a flag against the socket
/// ends the check without a connection.
pub proof fn first_flag_among_many_events_ends_the_check(
    events: Vec<Readiness>,
    polling: Check,
    met: Seq<Check>,
    clear: Seq<Check>,
    replies: Seq<PeerReply>,
)
    requires
        polling@.stage is Poll,
        met.len() == replies.len() + 1,
        clear.len() == replies.len(),
        replies.len() < events@.len(),
        call_ensures(Check::check_connected, (polling, CheckEvent::Polled(events)), met[0]),
        forall|k: int|
            #![trigger met[k]]
            #![trigger clear[k]]
            0 <= k < replies.len() ==> {
                let event = events@[k];
                &&& event.token == 0 && !event.error && !event.read_closed && !event.write_closed
                &&& call_ensures(
                    Check::check_connected,
                    (met[k], CheckEvent::SocketError(TakenError::Clear)),
                    clear[k],
                )
                &&& replies[k] matches PeerReply::Failed { not_connected, os_code }
                &&& not_connected || os_code == Some(115i32)
                &&& call_ensures(
                    Check::check_connected,
                    (clear[k], CheckEvent::Peer(replies[k])),
                    met[k + 1],
                )
            },
        ({
            let event = events@[replies.len() as int];
            event.error || event.read_closed || event.write_closed
        }),
    ensures
        met.last()@.stage == (CheckStage::Finished { connected: false, deregister: false }),
{
    events_are_met_in_order(events, polling, met, clear, replies, replies.len() as int);
}

proof fn events_are_met_in_order(
    events: Vec<Readiness>,
    polling: Check,
    met: Seq<Check>,
    clear: Seq<Check>,
    replies: Seq<PeerReply>,
    i: int,
)
    requires
        met.len() == replies.len() + 1,
        clear.len() == replies.len(),
        replies.len() < events@.len(),
        call_ensures(Check::check_connected, (polling, CheckEvent::Polled(events)), met[0]),
        forall|k: int|
            #![trigger met[k]]
            #![trigger clear[k]]
            0 <= k < replies.len() ==> {
                &&& call_ensures(
                    Check::check_connected,
                    (met[k], CheckEvent::SocketError(TakenError::Clear)),
                    clear[k],
                )
                &&& still_connecting(replies[k])
                &&& call_ensures(
                    Check::check_connected,
                    (clear[k], CheckEvent::Peer(replies[k])),
                    met[k + 1],
                )
            },
        0 <= i <= replies.len(),
    ensures
        met[i]@ == look(events@.skip(i)),
    decreases i,
{
    if i == 0 {
        assert(events@.skip(0) == events@);
    } else {
        events_are_met_in_order(events, polling, met, clear, replies, i - 1);
        let before = met[i - 1];
        let asked = clear[i - 1];
        assert(asked@.batch == before@.batch);
        assert(events@.skip(i - 1).drop_first() == events@.skip(i));
    }
}

} // verus!
