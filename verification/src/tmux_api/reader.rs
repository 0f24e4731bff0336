//! Reading what tmux prints and handing it to the parser.
//!
//! [`SshReader`] follows the socket of an SSH session: each time it becomes
//! readable, the channel's output is read until it is drained, then its error
//! output is read once. [`ProcessReader`] follows a local process, whose
//! output is read and parsed in turn.

use super::ring::ring_is_full;
use super::types::TmuxError;
use crate::ssh::readiness::{Batch, Readiness, SSH_TOKEN};
use vmap::io::Ring;
use vstd::prelude::*;

verus! {

/// The size of the buffer for the error output.
pub const STDERR_BUFFER_SIZE: usize = 4096;

/// Why a read failed.
#[derive(Debug, Clone, Copy, PartialEq, Eq, Structural)]
pub enum ReadFault {
    /// There is nothing to read now.
    WouldBlock,
    /// Anything else.
    Other,
}

/// What a read of the output brought.
#[derive(Debug, Clone, Copy, PartialEq, Eq, Structural)]
pub enum ReadReply {
    /// So many bytes, and whether the buffer is full with them.
    Bytes { count: usize, full: bool },
    /// There is nothing to read now.
    WouldBlock,
    /// The output cannot be read any more.
    Failed,
}

/// The reply for a read into `ring_buffer` that has just been made.
pub fn read_reply(outcome: Result<usize, ReadFault>, ring_buffer: &Ring) -> (reply: ReadReply)
    ensures
        reply == (match outcome {
            Ok(count) => ReadReply::Bytes {
                count,
                full: super::ring::ring_contents(*ring_buffer).len() == super::ring::ring_capacity(
                    *ring_buffer,
                ),
            },
            Err(ReadFault::WouldBlock) => ReadReply::WouldBlock,
            Err(ReadFault::Other) => ReadReply::Failed,
        }),
{
    match outcome {
        Ok(count) => ReadReply::Bytes { count, full: ring_is_full(ring_buffer) },
        Err(ReadFault::WouldBlock) => ReadReply::WouldBlock,
        Err(ReadFault::Other) => ReadReply::Failed,
    }
}

/// `String::from_utf8`.
///
/// Claims that it accepts exactly the bytes that are UTF-8, and that the text
/// encodes to them.
#[verifier::external_body]
fn text_from_utf8(bytes: Vec<u8>) -> (text: Result<String, std::string::FromUtf8Error>)
    ensures
        match text {
            Ok(t) => vstd::utf8::valid_utf8(bytes@) && vstd::utf8::encode_utf8(t@) == bytes@,
            Err(_) => !vstd::utf8::valid_utf8(bytes@),
        },
{
    String::from_utf8(bytes)
}

#[verifier::external_type_specification]
#[verifier::external_body]
pub struct ExFromUtf8Error(std::string::FromUtf8Error);

/// The text of the first `count` bytes of the error output's buffer; `None`
/// where they are not UTF-8.
pub fn stderr_text(buffer: &[u8], count: usize) -> (text: Option<String>)
    requires
        count <= buffer@.len(),
    ensures
        match text {
            Some(t) => vstd::utf8::valid_utf8(buffer@.take(count as int))
                && vstd::utf8::encode_utf8(t@) == buffer@.take(count as int),
            None => !vstd::utf8::valid_utf8(buffer@.take(count as int)),
        },
{
    let mut bytes: Vec<u8> = Vec::new();
    let mut i: usize = 0;
    while i < count
        invariant
            i <= count <= buffer@.len(),
            bytes@ == buffer@.take(i as int),
        decreases count - i,
    {
        bytes.push(buffer[i]);
        i = i + 1;
        assert(buffer@.take(i as int) == buffer@.take(i - 1).push(buffer@[i - 1]));
    }
    match text_from_utf8(bytes) {
        Ok(text) => Some(text),
        Err(_) => None,
    }
}

/// Why reading from an SSH session is over.
#[derive(Debug, Clone, Copy, PartialEq, Eq, Structural)]
pub enum Stop {
    /// The socket could not be polled.
    PollFailed,
    /// The socket failed or was closed.
    Hangup,
    /// The output could not be read or parsed.
    Error(TmuxError),
}

/// What an [`SshReader`] waits for, or how it ended.
#[derive(Debug, Clone, Copy, PartialEq, Eq, Structural)]
pub enum SshStage {
    /// A poll for events.
    Poll,
    /// A read of the output.
    Stdout,
    /// The parser's work on what was read; the output is read again after it
    /// where `read_again` is set.
    Parse { read_again: bool },
    /// A read of the error output.
    Stderr,
    /// Reading is over.
    Stopped(Stop),
    /// An event came for a token that is not registered.
    Foreign,
}

/// What came of the step that an [`SshStage`] waited for.
#[derive(Debug)]
pub enum SshEvent {
    PollFailed,
    Polled(Vec<Readiness>),
    Stdout(ReadReply),
    /// Whether the parser took what was read.
    Parsed(bool),
    Stderr(Result<usize, ReadFault>),
}

/// [`SshEvent`] with its events as a sequence.
pub enum SshEventView {
    PollFailed,
    Polled(Seq<Readiness>),
    Stdout(ReadReply),
    Parsed(bool),
    Stderr(Result<usize, ReadFault>),
}

impl View for SshEvent {
    type V = SshEventView;

    open spec fn view(&self) -> SshEventView {
        match *self {
            SshEvent::PollFailed => SshEventView::PollFailed,
            SshEvent::Polled(events) => SshEventView::Polled(events@),
            SshEvent::Stdout(reply) => SshEventView::Stdout(reply),
            SshEvent::Parsed(taken) => SshEventView::Parsed(taken),
            SshEvent::Stderr(outcome) => SshEventView::Stderr(outcome),
        }
    }
}

/// Reads from an SSH session.
#[derive(Debug)]
pub struct SshReader {
    stage: SshStage,
    batch: Batch,
}

/// A reader's stage and the events that are still to be looked at, the current
/// one first.
pub struct SshReaderView {
    pub stage: SshStage,
    pub batch: Seq<Readiness>,
}

impl View for SshReader {
    type V = SshReaderView;

    closed spec fn view(&self) -> SshReaderView {
        SshReaderView { stage: self.stage, batch: self.batch@ }
    }
}

/// Looking at the first event of `batch`: a readable socket is read, and an
/// event that is not readable is done with; poll again when there is none.
pub open spec fn look(batch: Seq<Readiness>) -> SshReaderView
    decreases batch.len(),
{
    if batch.len() == 0 {
        SshReaderView { stage: SshStage::Poll, batch }
    } else if batch[0].token != SSH_TOKEN {
        SshReaderView { stage: SshStage::Foreign, batch }
    } else if batch[0].readable {
        SshReaderView { stage: SshStage::Stdout, batch }
    } else if batch[0].is_down() {
        SshReaderView { stage: SshStage::Stopped(Stop::Hangup), batch }
    } else {
        look(batch.drop_first())
    }
}

/// Being done with the first event of `batch`: stop where it says that the
/// socket is down, else look at the next.
pub open spec fn done_with_first(batch: Seq<Readiness>) -> SshReaderView {
    if batch[0].is_down() {
        SshReaderView { stage: SshStage::Stopped(Stop::Hangup), batch }
    } else {
        look(batch.drop_first())
    }
}

impl SshReaderView {
    /// A reader at its start.
    pub open spec fn start() -> SshReaderView {
        SshReaderView { stage: SshStage::Poll, batch: Seq::empty() }
    }

    /// There is a current event while its output is being read.
    pub open spec fn valid(self) -> bool {
        match self.stage {
            SshStage::Stdout | SshStage::Parse { .. } | SshStage::Stderr => self.batch.len() > 0,
            _ => true,
        }
    }

    /// `event` is a reply to what this stage waits for.
    pub open spec fn awaits(self, event: SshEventView) -> bool {
        match event {
            SshEventView::PollFailed | SshEventView::Polled(_) => self.stage is Poll,
            SshEventView::Stdout(_) => self.stage is Stdout,
            SshEventView::Parsed(_) => self.stage is Parse,
            SshEventView::Stderr(_) => self.stage is Stderr,
        }
    }

    /// The same reader in another stage.
    pub open spec fn at(self, stage: SshStage) -> SshReaderView {
        SshReaderView { stage, ..self }
    }

    /// The reader after `event`.
    pub open spec fn after(self, event: SshEventView) -> SshReaderView {
        match event {
            SshEventView::PollFailed => self.at(SshStage::Stopped(Stop::PollFailed)),
            SshEventView::Polled(events) => look(events),
            SshEventView::Stdout(ReadReply::Bytes { count, full }) => if count < 1 {
                self.at(SshStage::Stdout)
            } else {
                self.at(SshStage::Parse { read_again: full })
            },
            SshEventView::Stdout(ReadReply::WouldBlock) => self.at(SshStage::Stderr),
            SshEventView::Stdout(ReadReply::Failed) => self.at(
                SshStage::Stopped(Stop::Error(TmuxError::SshClosed)),
            ),
            SshEventView::Parsed(false) => self.at(
                SshStage::Stopped(Stop::Error(TmuxError::ParseFailed)),
            ),
            SshEventView::Parsed(true) => if self.stage->read_again {
                self.at(SshStage::Stdout)
            } else {
                self.at(SshStage::Stderr)
            },
            SshEventView::Stderr(Err(ReadFault::Other)) => self.at(
                SshStage::Stopped(Stop::Error(TmuxError::SshClosed)),
            ),
            SshEventView::Stderr(_) => done_with_first(self.batch),
        }
    }
}

impl SshReader {
    #[verifier::type_invariant]
    spec fn has_current_event(self) -> bool {
        self@.valid()
    }

    /// A reader that is about to poll.
    pub fn new() -> (reader: SshReader)
        ensures
            reader@ == SshReaderView::start(),
    {
        SshReader { stage: SshStage::Poll, batch: Batch::empty() }
    }

    /// What the reader waits for, or how it ended.
    pub fn stage(&self) -> (stage: SshStage)
        ensures
            stage == self@.stage,
    {
        self.stage
    }

    /// Looks at the first event of a batch.
    fn look(events: Batch) -> (reader: SshReader)
        ensures
            reader@ == look(events@),
    {
        let mut batch = events;
        loop
            invariant
                look(batch@) == look(events@),
            decreases batch@.len(),
        {
            match batch.first() {
                None => {
                    return SshReader { stage: SshStage::Poll, batch };
                },
                Some(event) => {
                    if event.token != SSH_TOKEN {
                        return SshReader { stage: SshStage::Foreign, batch };
                    }
                    if event.readable {
                        return SshReader { stage: SshStage::Stdout, batch };
                    }
                    if event.down() {
                        return SshReader { stage: SshStage::Stopped(Stop::Hangup), batch };
                    }
                    batch = batch.rest();
                },
            }
        }
    }

    /// Is done with the first event of a batch.
    fn done_with_first(batch: Batch) -> (reader: SshReader)
        requires
            batch@.len() > 0,
        ensures
            reader@ == done_with_first(batch@),
    {
        let down = match batch.first() {
            Some(event) => event.down(),
            None => false,
        };
        if down {
            SshReader { stage: SshStage::Stopped(Stop::Hangup), batch }
        } else {
            SshReader::look(batch.rest())
        }
    }

    /// Takes in the reply to what the current stage waits for.
    pub fn advance(self, event: SshEvent) -> (reader: SshReader)
        requires
            self@.awaits(event@),
        ensures
            reader@ == self@.after(event@),
    {
        proof {
            use_type_invariant(&self);
        }
        let stage = match event {
            SshEvent::PollFailed => SshStage::Stopped(Stop::PollFailed),
            SshEvent::Polled(events) => return SshReader::look(Batch::new(events)),
            SshEvent::Stdout(ReadReply::Bytes { count, full }) => if count < 1 {
                SshStage::Stdout
            } else {
                SshStage::Parse { read_again: full }
            },
            SshEvent::Stdout(ReadReply::WouldBlock) => SshStage::Stderr,
            SshEvent::Stdout(ReadReply::Failed) => SshStage::Stopped(
                Stop::Error(TmuxError::SshClosed),
            ),
            SshEvent::Parsed(false) => SshStage::Stopped(Stop::Error(TmuxError::ParseFailed)),
            SshEvent::Parsed(true) => match self.stage {
                SshStage::Parse { read_again: true } => SshStage::Stdout,
                _ => SshStage::Stderr,
            },
            SshEvent::Stderr(Err(ReadFault::Other)) => SshStage::Stopped(
                Stop::Error(TmuxError::SshClosed),
            ),
            SshEvent::Stderr(_) => return SshReader::done_with_first(self.batch),
        };
        SshReader { stage, batch: self.batch }
    }
}

/// The reader after all of `events`, in order; `None` where one of them did
/// not answer the stage it met.
pub open spec fn ssh_run(events: Seq<SshEventView>) -> Option<SshReaderView>
    decreases events.len(),
{
    if events.len() == 0 {
        Some(SshReaderView::start())
    } else {
        match ssh_run(events.drop_last()) {
            Some(reader) => if reader.awaits(events.last()) {
                Some(reader.after(events.last()))
            } else {
                None
            },
            None => None,
        }
    }
}

/// After this reply there is more output to read.
pub open spec fn wants_more(reply: ReadReply) -> bool {
    match reply {
        ReadReply::Bytes { count, full } => count == 0 || full,
        _ => false,
    }
}

/// After this reply the output is drained.
pub open spec fn drained(reply: ReadReply) -> bool {
    match reply {
        ReadReply::Bytes { count, full } => count > 0 && !full,
        ReadReply::WouldBlock => true,
        ReadReply::Failed => false,
    }
}

/// The events of one read of the output: the reply, and the parser's success
/// where there is something to parse.
pub open spec fn read_events(reply: ReadReply) -> Seq<SshEventView> {
    match reply {
        ReadReply::Bytes { count, .. } if count > 0 => seq![
            SshEventView::Stdout(reply),
            SshEventView::Parsed(true),
        ],
        _ => seq![SshEventView::Stdout(reply)],
    }
}

/// The events of reading the output once for each of `replies`.
pub open spec fn drain_events(replies: Seq<ReadReply>) -> Seq<SshEventView>
    decreases replies.len(),
{
    if replies.len() == 0 {
        Seq::empty()
    } else {
        drain_events(replies.drop_last()) + read_events(replies.last())
    }
}

proof fn run_of_one_read(events: Seq<SshEventView>, reply: ReadReply)
    requires
        ssh_run(events) matches Some(reader) && reader.stage is Stdout,
        wants_more(reply) || drained(reply),
    ensures
        ssh_run(events + read_events(reply)) == Some(
            ssh_run(events).unwrap().at(
                if wants_more(reply) {
                    SshStage::Stdout
                } else {
                    SshStage::Stderr
                },
            ),
        ),
{
    let whole = events + read_events(reply);
    let reader = ssh_run(events).unwrap();
    match reply {
        ReadReply::Bytes { count, full } if count > 0 => {
            assert(whole.drop_last().drop_last() == events);
            assert(whole.drop_last().last() == SshEventView::Stdout(reply));
            assert(ssh_run(whole.drop_last()) == Some(
                reader.at(SshStage::Parse { read_again: full }),
            ));
            assert(whole.last() == SshEventView::Parsed(true));
        },
        _ => {
            assert(whole.drop_last() == events);
            assert(whole.last() == SshEventView::Stdout(reply));
        },
    }
}

proof fn run_of_many_reads(events: Seq<SshEventView>, replies: Seq<ReadReply>)
    requires
        ssh_run(events) matches Some(reader) && reader.stage is Stdout,
        forall|i: int| 0 <= i < replies.len() ==> wants_more(#[trigger] replies[i]),
    ensures
        ssh_run(events + drain_events(replies)) == ssh_run(events),
    decreases replies.len(),
{
    if replies.len() == 0 {
        assert(events + drain_events(replies) == events);
    } else {
        let earlier = replies.drop_last();
        run_of_many_reads(events, earlier);
        run_of_one_read(events + drain_events(earlier), replies.last());
        assert(events + drain_events(replies) == events + drain_events(earlier) + read_events(
            replies.last(),
        ));
    }
}

/// Output is read until it is drained: after any number of reads that left
/// more to read it is read again, and after the first one that drains it the
/// error output is read, for the same event.
pub proof fn output_is_read_until_drained(
    events: Seq<SshEventView>,
    replies: Seq<ReadReply>,
    last: ReadReply,
)
    requires
        ssh_run(events) matches Some(reader) && reader.stage is Stdout,
        forall|i: int| 0 <= i < replies.len() ==> wants_more(#[trigger] replies[i]),
        drained(last),
    ensures
        ssh_run(events + drain_events(replies)) == ssh_run(events),
        ssh_run(events + drain_events(replies.push(last))) == Some(
            ssh_run(events).unwrap().at(SshStage::Stderr),
        ),
{
    run_of_many_reads(events, replies);
    run_of_one_read(events + drain_events(replies), last);
    assert(replies.push(last).drop_last() == replies);
    assert(events + drain_events(replies.push(last)) == events + drain_events(replies)
        + read_events(last));
}

/// The parser is asked only after a read that brought at least one byte, and
/// the output is read again after it exactly where the buffer was full.
pub proof fn parsing_follows_bytes(events: Seq<SshEventView>)
    requires
        ssh_run(events) matches Some(reader) && reader.stage is Parse,
    ensures
        events.len() > 0,
        events.last() matches SshEventView::Stdout(ReadReply::Bytes { count, full }) && count > 0
            && ssh_run(events).unwrap().stage == (SshStage::Parse { read_again: full }),
{
    match events.last() {
        SshEventView::Polled(batch) => looking_starts_no_parse(batch),
        SshEventView::Stderr(_) => {
            let earlier = ssh_run(events.drop_last()).unwrap();
            looking_starts_no_parse(earlier.batch.drop_first());
        },
        _ => {},
    }
}

proof fn looking_starts_no_parse(batch: Seq<Readiness>)
    ensures
        !(look(batch).stage is Parse),
    decreases batch.len(),
{
    if batch.len() > 0 {
        looking_starts_no_parse(batch.drop_first());
    }
}

/// A reader that stopped was stopped by the last thing that it took in, and
/// the reason says by which kind of thing.
pub proof fn stop_tells_its_cause(events: Seq<SshEventView>)
    requires
        ssh_run(events) matches Some(reader) && reader.stage is Stopped,
    ensures
        events.len() > 0,
        match ssh_run(events).unwrap().stage->Stopped_0 {
            Stop::PollFailed => events.last() is PollFailed,
            Stop::Error(TmuxError::ParseFailed) => events.last() == SshEventView::Parsed(false),
            Stop::Error(TmuxError::SshClosed) => events.last() == SshEventView::Stdout(
                ReadReply::Failed,
            ) || events.last() == SshEventView::Stderr(Err::<usize, ReadFault>(ReadFault::Other)),
            Stop::Hangup => match events.last() {
                SshEventView::Polled(batch) => exists|i: int|
                    0 <= i < batch.len() && (#[trigger] batch[i]).is_down(),
                SshEventView::Stderr(_) => {
                    let batch = ssh_run(events.drop_last()).unwrap().batch;
                    exists|i: int| 0 <= i < batch.len() && (#[trigger] batch[i]).is_down()
                },
                _ => false,
            },
        },
{
    let earlier = ssh_run(events.drop_last()).unwrap();
    match events.last() {
        SshEventView::Polled(batch) => looking_stops_where_down(batch),
        SshEventView::Stderr(_) => {
            let rest = earlier.batch.drop_first();
            looking_stops_where_down(rest);
            readers_stay_valid(events.drop_last());
            assert(forall|i: int| 0 <= i < rest.len() ==> rest[i] == earlier.batch[i + 1]);
        },
        _ => {},
    }
}

proof fn looking_stops_where_down(batch: Seq<Readiness>)
    ensures
        look(batch).stage is Stopped ==> look(batch).stage->Stopped_0 is Hangup && exists|i: int|
            0 <= i < batch.len() && (#[trigger] batch[i]).is_down(),
        look(batch).valid(),
    decreases batch.len(),
{
    if batch.len() > 0 {
        let rest = batch.drop_first();
        looking_stops_where_down(rest);
        assert(forall|i: int| 0 <= i < rest.len() ==> rest[i] == batch[i + 1]);
    }
}

proof fn readers_stay_valid(events: Seq<SshEventView>)
    requires
        ssh_run(events) is Some,
    ensures
        ssh_run(events).unwrap().valid(),
    decreases events.len(),
{
    if events.len() > 0 {
        readers_stay_valid(events.drop_last());
        match events.last() {
            SshEventView::Polled(batch) => looking_stops_where_down(batch),
            SshEventView::Stderr(_) => looking_stops_where_down(
                ssh_run(events.drop_last()).unwrap().batch.drop_first(),
            ),
            _ => {},
        }
    }
}

/// A poll whose events are all sound and not readable leads to the next poll.
pub proof fn idle_events_are_passed_over(batch: Seq<Readiness>)
    requires
        forall|i: int|
            0 <= i < batch.len() ==> (#[trigger] batch[i]).token == SSH_TOKEN && !batch[i].readable
                && !batch[i].is_down(),
    ensures
        look(batch).stage is Poll,
    decreases batch.len(),
{
    if batch.len() > 0 {
        idle_events_are_passed_over(batch.drop_first());
    }
}

/// What a [`ProcessReader`] waits for, or that it ended.
#[derive(Debug, Clone, Copy, PartialEq, Eq, Structural)]
pub enum ProcessStage {
    /// A read of the output.
    Read,
    /// The parser's work on what was read.
    Parse,
    /// Reading is over.
    Stopped,
}

/// What came of the step that a [`ProcessStage`] waited for.
#[derive(Debug, Clone, Copy)]
pub enum ProcessEvent {
    Read(Result<usize, ReadFault>),
    /// Whether the parser took what was read.
    Parsed(bool),
}

/// Reads from a process.
#[derive(Debug, Clone, Copy, PartialEq, Eq, Structural)]
pub struct ProcessReader {
    pub stage: ProcessStage,
}

impl ProcessReader {
    /// `event` is a reply to what this stage waits for.
    pub open spec fn awaits(self, event: ProcessEvent) -> bool {
        match event {
            ProcessEvent::Read(_) => self.stage is Read,
            ProcessEvent::Parsed(_) => self.stage is Parse,
        }
    }

    /// What the reader waits for after `event`: nothing to parse is read
    /// again, and any failure is the end.
    pub open spec fn stage_after(event: ProcessEvent) -> ProcessStage {
        match event {
            ProcessEvent::Read(Ok(count)) => if count < 1 {
                ProcessStage::Read
            } else {
                ProcessStage::Parse
            },
            ProcessEvent::Parsed(true) => ProcessStage::Read,
            ProcessEvent::Read(Err(_)) | ProcessEvent::Parsed(false) => ProcessStage::Stopped,
        }
    }

    /// A reader that is about to read.
    pub fn new() -> (reader: ProcessReader)
        ensures
            reader.stage == ProcessStage::Read,
    {
        ProcessReader { stage: ProcessStage::Read }
    }

    /// Takes in the reply to what the current stage waits for.
    pub fn advance(self, event: ProcessEvent) -> (reader: ProcessReader)
        requires
            self.awaits(event),
        ensures
            reader.stage == ProcessReader::stage_after(event),
    {
        let stage = match event {
            ProcessEvent::Read(Ok(count)) => if count < 1 {
                ProcessStage::Read
            } else {
                ProcessStage::Parse
            },
            ProcessEvent::Parsed(true) => ProcessStage::Read,
            ProcessEvent::Read(Err(_)) | ProcessEvent::Parsed(false) => ProcessStage::Stopped,
        };
        ProcessReader { stage }
    }
}

/// The reply for a read that succeeded tells its count and whether the buffer
/// has no free space left; the reply for one that failed tells only whether
/// there may be more later.
pub proof fn reply_tells_the_read(
    outcome: Result<usize, ReadFault>,
    ring_buffer: &Ring,
    reply: ReadReply,
)
    requires
        call_ensures(read_reply, (outcome, ring_buffer), reply),
    ensures
        outcome matches Ok(n) ==> (reply matches ReadReply::Bytes { count, full } && count == n && (
        full <==> super::ring::ring_spare(*ring_buffer).len() == 0)),
        outcome matches Err(fault) && fault is WouldBlock ==> reply is WouldBlock,
        outcome matches Err(fault) && fault is Other ==> reply is Failed,
{
}

/// The error output's text is told exactly where its bytes are UTF-8, and
/// encodes to just the bytes that were read, whatever is behind them.
pub proof fn error_text_encodes_what_was_read(
    buffer: &[u8],
    other: &[u8],
    count: usize,
    text: Option<String>,
    other_text: Option<String>,
)
    requires
        count <= buffer@.len(),
        count <= other@.len(),
        buffer@.take(count as int) == other@.take(count as int),
        call_ensures(stderr_text, (buffer, count), text),
        call_ensures(stderr_text, (other, count), other_text),
    ensures
        call_requires(stderr_text, (buffer, count)),
        text is Some <==> vstd::utf8::valid_utf8(buffer@.take(count as int)),
        text is Some <==> other_text is Some,
        text matches Some(t) ==> vstd::utf8::encode_utf8(t@) == buffer@.take(count as int)
            && vstd::utf8::encode_utf8(other_text.unwrap()@) == vstd::utf8::encode_utf8(t@),
{
}

/// A reader starts with a poll, shows the stage that it is in, and stops where
/// it cannot poll.
pub proof fn reading_starts_with_a_poll(reader: SshReader, stage: SshStage, next: SshReader)
    requires
        call_ensures(SshReader::new, (), reader),
        call_ensures(SshReader::stage, (&reader,), stage),
        call_ensures(SshReader::advance, (reader, SshEvent::PollFailed), next),
    ensures
        stage is Poll,
        call_requires(SshReader::advance, (reader, SshEvent::PollFailed)),
        next@.stage == SshStage::Stopped(Stop::PollFailed),
{
}

/// Every failure stops a reader, from whatever reader it comes to and whatever
/// was read before, and the stop tells which: a failed poll, a parser that gave
/// up, an output or an error output that cannot be read.
pub proof fn every_failure_stops_the_reader(reader: SshReader, event: SshEvent, next: SshReader)
    requires
        call_ensures(SshReader::advance, (reader, event), next),
    ensures
        event is PollFailed ==> next@.stage == SshStage::Stopped(Stop::PollFailed),
        event matches SshEvent::Parsed(taken) && !taken ==> next@.stage == SshStage::Stopped(
            Stop::Error(TmuxError::ParseFailed),
        ),
        event matches SshEvent::Stdout(reply) && reply is Failed ==> next@.stage
            == SshStage::Stopped(Stop::Error(TmuxError::SshClosed)),
        event matches SshEvent::Stderr(Err(fault)) && fault is Other ==> next@.stage
            == SshStage::Stopped(Stop::Error(TmuxError::SshClosed)),
{
}

/// A read that brought bytes is parsed, however many they are, and one that
/// brought none is made again. Where there is nothing to read now, the error
/// output is read. The current event stays the same.
pub proof fn bytes_are_parsed_and_nothing_is_read_again(
    reader: SshReader,
    count: usize,
    full: bool,
    next: SshReader,
    blocked: SshReader,
)
    requires
        reader@.stage is Stdout,
        call_ensures(
            SshReader::advance,
            (reader, SshEvent::Stdout(ReadReply::Bytes { count, full })),
            next,
        ),
        call_ensures(
            SshReader::advance,
            (reader, SshEvent::Stdout(ReadReply::WouldBlock)),
            blocked,
        ),
    ensures
        forall|reply: ReadReply| #[trigger]
            call_requires(SshReader::advance, (reader, SshEvent::Stdout(reply))),
        next@.stage is Stdout <==> count == 0,
        next@.stage is Parse <==> count >= 1,
        blocked@.stage is Stderr,
        next@.batch == reader@.batch,
        blocked@.batch == reader@.batch,
{
}

/// What was read is parsed before anything else is read. After that the output
/// is read again exactly where the buffer had been full, and otherwise the
/// error output, for the same event.
pub proof fn full_buffer_is_read_again_after_parsing(
    reader: SshReader,
    count: usize,
    full: bool,
    parsing: SshReader,
    taken: bool,
    parsed: SshReader,
)
    requires
        reader@.stage is Stdout,
        count >= 1,
        call_ensures(
            SshReader::advance,
            (reader, SshEvent::Stdout(ReadReply::Bytes { count, full })),
            parsing,
        ),
        call_ensures(SshReader::advance, (parsing, SshEvent::Parsed(taken)), parsed),
    ensures
        call_requires(SshReader::advance, (parsing, SshEvent::Parsed(taken))),
        taken && full ==> parsed@.stage is Stdout,
        taken && !full ==> parsed@.stage is Stderr,
        !taken ==> parsed@.stage == SshStage::Stopped(Stop::Error(TmuxError::ParseFailed)),
        parsed@.batch == reader@.batch,
{
}

/// Of the events of a poll those before the first that matters are passed over:
/// events for token 0 that are neither readable nor against the socket. The
/// first that matters is met with all behind it: one for another token is
/// foreign, a readable one is read, even where it is against the socket too,
/// and any other stops the reader. Where none matters, the next poll is made.
pub proof fn first_event_that_matters_is_met(
    reader: SshReader,
    events: Vec<Readiness>,
    i: int,
    next: SshReader,
)
    requires
        reader@.stage is Poll,
        0 <= i <= events@.len(),
        forall|k: int|
            0 <= k < i ==> (#[trigger] events@[k]).token == 0 && !events@[k].readable
                && !events@[k].error && !events@[k].read_closed && !events@[k].write_closed,
        call_ensures(SshReader::advance, (reader, SshEvent::Polled(events)), next),
    ensures
        call_requires(SshReader::advance, (reader, SshEvent::Polled(events))),
        i == events@.len() ==> next@.stage is Poll,
        i < events@.len() ==> {
            let event = events@[i];
            let against = event.error || event.read_closed || event.write_closed;
            &&& event.token != 0 ==> next@.stage is Foreign
            &&& event.token == 0 && event.readable ==> next@.stage is Stdout && next@.batch
                == events@.skip(i)
            &&& event.token == 0 && !event.readable && against ==> next@.stage
                == SshStage::Stopped(Stop::Hangup)
        },
{
    idle_events_are_skipped(events@, i);
}

proof fn idle_events_are_skipped(batch: Seq<Readiness>, i: int)
    requires
        0 <= i <= batch.len(),
        forall|k: int|
            0 <= k < i ==> (#[trigger] batch[k]).token == SSH_TOKEN && !batch[k].readable
                && !batch[k].is_down(),
    ensures
        look(batch) == look(batch.skip(i)),
    decreases i,
{
    if i == 0 {
        assert(batch.skip(0) == batch);
    } else {
        let rest = batch.drop_first();
        assert(forall|k: int| 0 <= k < i - 1 ==> #[trigger] rest[k] == batch[k + 1]);
        idle_events_are_skipped(rest, i - 1);
        assert(rest.skip(i - 1) == batch.skip(i));
    }
}

/// After the error output was read, or had nothing to read now, the event is
/// done with: one against the socket stops the reader, and any other is
/// followed by the events behind it, just as though a poll had reported them.
pub proof fn event_is_done_with_after_the_error_output(
    reader: SshReader,
    outcome: Result<usize, ReadFault>,
    next: SshReader,
    polling: SshReader,
    later: Vec<Readiness>,
    polled: SshReader,
)
    requires
        reader@.stage is Stderr,
        outcome matches Err(fault) ==> fault is WouldBlock,
        call_ensures(SshReader::advance, (reader, SshEvent::Stderr(outcome)), next),
        later@ == reader@.batch.drop_first(),
        polling@.stage is Poll,
        call_ensures(SshReader::advance, (polling, SshEvent::Polled(later)), polled),
    ensures
        call_requires(SshReader::advance, (reader, SshEvent::Stderr(outcome))),
        ({
            let event = reader@.batch[0];
            let against = event.error || event.read_closed || event.write_closed;
            &&& against ==> next@.stage == SshStage::Stopped(Stop::Hangup)
            &&& !against ==> next@ == polled@
        }),
{
}

/// Following a process, the reader starts with a read. A read that brought at
/// least one byte is parsed, however many they are, and only one that brought
/// none is made again.
pub proof fn process_output_is_parsed_whenever_there_is_any(
    reader: ProcessReader,
    count: usize,
    next: ProcessReader,
)
    requires
        call_ensures(ProcessReader::new, (), reader),
        call_ensures(ProcessReader::advance, (reader, ProcessEvent::Read(Ok(count))), next),
    ensures
        reader.stage is Read,
        call_requires(ProcessReader::advance, (reader, ProcessEvent::Read(Ok(count)))),
        next.stage is Parse <==> count >= 1,
        next.stage is Read <==> count == 0,
{
}

/// Following a process, what was parsed is followed by the next read, and every
/// failure, of a read or of the parser, is the end.
pub proof fn every_failure_stops_the_process_reader(
    reader: ProcessReader,
    parsing: ProcessReader,
    fault: ReadFault,
    unread: ProcessReader,
    taken: bool,
    parsed: ProcessReader,
)
    requires
        reader.stage is Read,
        parsing.stage is Parse,
        call_ensures(ProcessReader::advance, (reader, ProcessEvent::Read(Err(fault))), unread),
        call_ensures(ProcessReader::advance, (parsing, ProcessEvent::Parsed(taken)), parsed),
    ensures
        call_requires(ProcessReader::advance, (reader, ProcessEvent::Read(Err(fault)))),
        call_requires(ProcessReader::advance, (parsing, ProcessEvent::Parsed(taken))),
        unread.stage is Stopped,
        parsed.stage is Read <==> taken,
        parsed.stage is Stopped <==> !taken,
{
}

} // verus!
