//! Starting tmux, and the state of a tmux session.

use super::types::{IvyError, TmuxCommand, TmuxEvent};
use crate::ssh::login::{DisconnectCode, SSHData};
use async_channel::{Receiver, Sender};
use mio::{Events, Poll};
use ssh2::Session;
use vstd::prelude::*;
use vstd::string::*;

verus! {

/// Where the error output of a process goes. Its input and output are pipes.
#[derive(Debug, Clone, Copy, PartialEq, Eq, Structural)]
pub enum StderrTarget {
    Pipe,
    Inherit,
}

/// A process to start.
#[derive(Debug)]
pub struct ProcessCommand {
    pub program: String,
    pub args: Vec<String>,
    pub stderr: StderrTarget,
}

/// [`ProcessCommand`] with its texts as character sequences.
pub struct ProcessCommandView {
    pub program: Seq<char>,
    pub args: Seq<Seq<char>>,
    pub stderr: StderrTarget,
}

/// The characters of each of `words`.
pub open spec fn words_view(words: Seq<String>) -> Seq<Seq<char>> {
    words.map_values(|word: String| word@)
}

impl View for ProcessCommand {
    type V = ProcessCommandView;

    open spec fn view(&self) -> ProcessCommandView {
        ProcessCommandView {
            program: self.program@,
            args: words_view(self.args@),
            stderr: self.stderr,
        }
    }
}

/// How tmux is started.
pub enum Route {
    /// By executing a command in a channel of a session.
    Ssh { command: String, session: Session, poll: Poll, events: Events },
    /// By starting a process.
    Process(ProcessCommand),
}

/// What starts tmux, apart from the session that it may need.
pub enum Start {
    /// A command to execute in a channel, and the poll that watches the
    /// channel's socket.
    Channel { command: String, poll: Poll, events: Events },
    /// A process to start.
    Process(ProcessCommand),
}

/// The session that has to be kept while tmux runs: the one that it runs in,
/// where there is one.
pub open spec fn kept_session(route: Route) -> Option<Session> {
    match route {
        Route::Ssh { session, .. } => Some(session),
        Route::Process(_) => None,
    }
}

impl Route {
    /// Parts what starts tmux from the session that has to be kept.
    pub fn take_apart(self) -> (parts: (Start, Option<Session>))
        ensures
            parts.1 == kept_session(self),
            parts.0 == (match self {
                Route::Ssh { command, session, poll, events } => Start::Channel {
                    command,
                    poll,
                    events,
                },
                Route::Process(process) => Start::Process(process),
            }),
    {
        match self {
            Route::Ssh { command, session, poll, events } => (
                Start::Channel { command, poll, events },
                Some(session),
            ),
            Route::Process(process) => (Start::Process(process), None),
        }
    }
}

/// A start of tmux.
pub struct Launch {
    /// The host that the parser knows tmux to run on.
    pub ssh_target: Option<String>,
    /// The error to report where tmux cannot be started; without one, that it
    /// can be started is taken for granted.
    pub failure: Option<IvyError>,
    /// How tmux is started.
    pub route: Route,
}

/// What tmux is started with: in control mode, attached to the session `name`,
/// which is made where there is none.
pub open spec fn tmux_args(name: Seq<char>) -> Seq<Seq<char>> {
    seq!["-2"@, "-C"@, "new-session"@, "-A"@, "-s"@, name]
}

/// The shell command that starts tmux.
pub open spec fn tmux_command(name: Seq<char>) -> Seq<char> {
    "tmux -2 -C new-session -A -s "@ + name
}

/// The process that runs tmux on this machine.
pub open spec fn local_process(name: Seq<char>) -> ProcessCommandView {
    ProcessCommandView {
        program: "tmux"@,
        args: tmux_args(name),
        stderr: StderrTarget::Pipe,
    }
}

/// The process that runs tmux on `host` through the system's `ssh` program.
pub open spec fn remote_process(host: Seq<char>, name: Seq<char>) -> ProcessCommandView {
    ProcessCommandView {
        program: "ssh"@,
        args: seq![host, "tmux"@] + tmux_args(name),
        stderr: StderrTarget::Inherit,
    }
}

/// Adds the arguments of tmux behind `args`.
fn push_tmux_args(args: &mut Vec<String>, session_name: &str)
    ensures
        words_view(final(args)@) == words_view(old(args)@) + tmux_args(session_name@),
{
    args.push("-2".to_owned());
    args.push("-C".to_owned());
    args.push("new-session".to_owned());
    args.push("-A".to_owned());
    args.push("-s".to_owned());
    args.push(session_name.to_owned());
    assert(words_view(args@) == words_view(old(args)@) + tmux_args(session_name@));
}

/// Starts tmux in a session of our own.
pub fn new_with_ssh(tmux_name: &str, ssh_data: SSHData) -> (launch: Launch)
    requires
        ssh_data is Native,
    ensures
        launch.failure == Some(IvyError::TmuxSpawnFailed),
        ssh_data matches SSHData::Native(host, s, p, e) && launch.ssh_target == Some(host)
            && (launch.route matches Route::Ssh { command, session, poll, events } && command@
            == tmux_command(tmux_name@) && session == s && poll == p && events == e),
{
    match ssh_data {
        SSHData::Native(ssh_target, session, poll, events) => {
            let command = "tmux -2 -C new-session -A -s ".to_owned().concat(tmux_name);
            Launch {
                ssh_target: Some(ssh_target),
                failure: Some(IvyError::TmuxSpawnFailed),
                route: Route::Ssh { command, session, poll, events },
            }
        },
        SSHData::Binary(_) => vstd::pervasive::unreached(),
    }
}

/// Starts tmux on this machine.
pub fn new_without_ssh(session_name: &str) -> (launch: Launch)
    ensures
        launch.ssh_target is None,
        launch.failure is None,
        launch.route matches Route::Process(process) && process@ == local_process(session_name@),
{
    let mut args: Vec<String> = Vec::new();
    push_tmux_args(&mut args, session_name);
    assert(words_view(args@) == tmux_args(session_name@));
    let process = ProcessCommand { program: "tmux".to_owned(), args, stderr: StderrTarget::Pipe };
    Launch { ssh_target: None, failure: None, route: Route::Process(process) }
}

/// Starts tmux on `host` through the system's `ssh` program.
pub fn new_with_ssh_binary(host: &str, session_name: &str) -> (launch: Launch)
    ensures
        launch.ssh_target is None,
        launch.failure == Some(IvyError::TmuxSpawnFailed),
        launch.route matches Route::Process(process) && process@ == remote_process(
            host@,
            session_name@,
        ),
{
    let mut args: Vec<String> = Vec::new();
    args.push(host.to_owned());
    args.push("tmux".to_owned());
    assert(words_view(args@) == seq![host@, "tmux"@]);
    push_tmux_args(&mut args, session_name);
    let process = ProcessCommand { program: "ssh".to_owned(), args, stderr: StderrTarget::Inherit };
    Launch {
        ssh_target: None,
        failure: Some(IvyError::TmuxSpawnFailed),
        route: Route::Process(process),
    }
}

/// Chooses how to start tmux: over the session there is, or on this machine.
pub fn plan_launch(session_name: &str, ssh_session: Option<SSHData>) -> (launch: Launch)
    ensures
        kept_session(launch.route) == (match ssh_session {
            Some(SSHData::Native(_, session, _, _)) => Some(session),
            _ => None,
        }),
        match ssh_session {
            None => {
                &&& launch.ssh_target is None
                &&& launch.failure is None
                &&& launch.route matches Route::Process(process)
                &&& process@ == local_process(session_name@)
            },
            Some(SSHData::Binary(host)) => {
                &&& launch.ssh_target is None
                &&& launch.failure == Some(IvyError::TmuxSpawnFailed)
                &&& launch.route matches Route::Process(process)
                &&& process@ == remote_process(host@, session_name@)
            },
            Some(SSHData::Native(host, s, p, e)) => {
                &&& launch.ssh_target == Some(host)
                &&& launch.failure == Some(IvyError::TmuxSpawnFailed)
                &&& launch.route matches Route::Ssh { command, session, poll, events }
                &&& command@ == tmux_command(session_name@)
                &&& session == s
                &&& poll == p
                &&& events == e
            },
        },
{
    match ssh_session {
        None => new_without_ssh(session_name),
        Some(SSHData::Binary(host)) => new_with_ssh_binary(host.as_str(), session_name),
        Some(SSHData::Native(host, session, poll, events)) => new_with_ssh(
            session_name,
            SSHData::Native(host, session, poll, events),
        ),
    }
}

/// What comes of starting tmux: the session to keep, or the error to report
/// where it did not start.
pub fn start_outcome(
    failure: Option<IvyError>,
    started: bool,
    session: Option<Session>,
) -> (spawned: Result<Option<Session>, IvyError>)
    requires
        started || failure is Some,
    ensures
        spawned == (if started {
            Ok::<Option<Session>, IvyError>(session)
        } else {
            Err::<Option<Session>, IvyError>(failure.unwrap())
        }),
{
    match failure {
        Some(error) if !started => Err(error),
        _ => Ok(session),
    }
}

/// A tmux session that is attached to.
pub struct TmuxAPI {
    /// The SSH session that tmux runs in, where it is one of our own.
    pub ssh_session: Option<Session>,
    /// Takes the commands whose replies are awaited, in the order in which
    /// they were sent.
    pub command_queue: Sender<TmuxCommand>,
    /// The size that tmux was told, in columns and rows.
    pub window_size: (i32, i32),
    /// Whether a change of size is waiting to be told.
    pub resize_future: bool,
}

/// A farewell to an SSH session.
#[derive(Debug)]
pub struct Disconnect {
    pub code: DisconnectCode,
    pub description: String,
}

impl TmuxAPI {
    /// The session after tmux was started, or the error that kept it from
    /// starting. No size has been told yet.
    pub fn new(
        spawned: Result<Option<Session>, IvyError>,
        command_queue: Sender<TmuxCommand>,
    ) -> (tmux: Result<TmuxAPI, IvyError>)
        ensures
            match spawned {
                Ok(ssh_session) => tmux == Ok::<TmuxAPI, IvyError>(
                    TmuxAPI {
                        ssh_session,
                        command_queue,
                        window_size: (0, 0),
                        resize_future: false,
                    },
                ),
                Err(error) => tmux == Err::<TmuxAPI, IvyError>(error),
            },
    {
        match spawned {
            Ok(ssh_session) => Ok(
                TmuxAPI { ssh_session, command_queue, window_size: (0, 0), resize_future: false },
            ),
            Err(error) => Err(error),
        }
    }

    /// What is left to say when the session is dropped: a session of our own
    /// is disconnected, and nothing else is.
    pub fn on_drop(&self) -> (farewell: Option<Disconnect>)
        ensures
            match farewell {
                Some(disconnect) => self.ssh_session is Some && disconnect.code
                    == DisconnectCode::ByApplication && disconnect.description@ == "Tmux closed"@,
                None => self.ssh_session is None,
            },
    {
        match &self.ssh_session {
            Some(_) => Some(
                Disconnect {
                    code: DisconnectCode::ByApplication,
                    description: "Tmux closed".to_owned(),
                },
            ),
            None => None,
        }
    }
}

/// The state of the parser of tmux's output.
pub struct TmuxParserState {
    /// The host that tmux runs on, where it runs in a session of our own.
    pub ssh_target: Option<String>,
    /// Takes what tmux reports.
    pub event_channel: Sender<TmuxEvent>,
    /// Gives the commands whose replies are awaited.
    pub command_queue: Receiver<TmuxCommand>,
    /// The command whose reply is being read.
    pub current_command: Option<TmuxCommand>,
    /// Whether that reply is an error.
    pub is_error: bool,
    /// The lines of that reply that were read.
    pub result_line: usize,
    /// The empty lines of that reply that were read.
    pub empty_line_count: usize,
}

impl TmuxParserState {
    /// A parser that has read nothing.
    pub fn new(
        tmux_event_sender: Sender<TmuxEvent>,
        cmd_queue_receiver: Receiver<TmuxCommand>,
        ssh_target: Option<String>,
    ) -> (state: TmuxParserState)
        ensures
            state == (TmuxParserState {
                ssh_target,
                event_channel: tmux_event_sender,
                command_queue: cmd_queue_receiver,
                current_command: None,
                is_error: false,
                result_line: 0,
                empty_line_count: 0,
            }),
    {
        TmuxParserState {
            command_queue: cmd_queue_receiver,
            event_channel: tmux_event_sender,
            current_command: None,
            is_error: false,
            ssh_target,
            result_line: 0,
            empty_line_count: 0,
        }
    }
}

/// `words` with a space between each two.
pub open spec fn joined(words: Seq<Seq<char>>) -> Seq<char>
    decreases words.len(),
{
    if words.len() == 0 {
        Seq::empty()
    } else if words.len() == 1 {
        words[0]
    } else {
        joined(words.drop_last()) + seq![' '] + words.last()
    }
}

/// Every way of starting tmux runs the same command: the command for a session
/// of our own is the words of the local process, and the `ssh` program is
/// given those words behind the host.
pub proof fn every_route_runs_the_same_command(host: Seq<char>, name: Seq<char>)
    ensures
        ({
            let local = local_process(name);
            let remote = remote_process(host, name);
            let words = seq![local.program] + local.args;
            &&& joined(words) == tmux_command(name)
            &&& remote.args == seq![host] + words
        }),
{
    reveal_strlit("tmux");
    reveal_strlit("-2");
    reveal_strlit("-C");
    reveal_strlit("new-session");
    reveal_strlit("-A");
    reveal_strlit("-s");
    reveal_strlit("tmux -2 -C new-session -A -s ");
    let words = seq!["tmux"@] + tmux_args(name);
    joined_by_one_more(words, 1);
    joined_by_one_more(words, 2);
    joined_by_one_more(words, 3);
    joined_by_one_more(words, 4);
    joined_by_one_more(words, 5);
    joined_by_one_more(words, 6);
    assert(words.take(7) == words);
    assert(joined(words.take(1)) == "tmux"@);
    assert(joined(words) == tmux_command(name));
    assert(remote_process(host, name).args == seq![host] + words);
}

proof fn joined_by_one_more(words: Seq<Seq<char>>, k: int)
    requires
        0 < k < words.len(),
    ensures
        joined(words.take(k + 1)) == joined(words.take(k)) + seq![' '] + words[k],
{
    assert(words.take(k + 1).drop_last() == words.take(k));
}

/// tmux on this machine is started for the whole of the session name, which is
/// its last argument; what stands before it is the same for every name. No host
/// is known to the parser, and that tmux starts is taken for granted.
pub proof fn local_tmux_attaches_to_the_whole_name(name: &str, launch: Launch)
    requires
        call_ensures(new_without_ssh, (name,), launch),
    ensures
        launch.ssh_target is None,
        launch.failure is None,
        launch.route matches Route::Process(process) && {
            let words = process.args@;
            &&& process.program@ == "tmux"@
            &&& process.stderr is Pipe
            &&& words.len() == 6
            &&& words[0]@ == "-2"@
            &&& words[1]@ == "-C"@
            &&& words[2]@ == "new-session"@
            &&& words[3]@ == "-A"@
            &&& words[4]@ == "-s"@
            &&& words[5]@ == name@
        },
{
    let process = launch.route->Process_0;
    assert(words_view(process.args@) == tmux_args(name@));
    words_are_seen_one_by_one(process.args@);
}

/// The `ssh` program is given the host first and, behind `tmux` and its flags,
/// the whole of the session name last. No host is known to the parser, and a
/// failed start is reported.
pub proof fn remote_tmux_attaches_to_the_whole_name(host: &str, name: &str, launch: Launch)
    requires
        call_ensures(new_with_ssh_binary, (host, name), launch),
    ensures
        launch.ssh_target is None,
        launch.failure == Some(IvyError::TmuxSpawnFailed),
        launch.route matches Route::Process(process) && {
            let words = process.args@;
            &&& process.program@ == "ssh"@
            &&& process.stderr is Inherit
            &&& words.len() == 8
            &&& words[0]@ == host@
            &&& words[1]@ == "tmux"@
            &&& words[2]@ == "-2"@
            &&& words[3]@ == "-C"@
            &&& words[4]@ == "new-session"@
            &&& words[5]@ == "-A"@
            &&& words[6]@ == "-s"@
            &&& words[7]@ == name@
        },
{
    let process = launch.route->Process_0;
    let words = words_view(process.args@);
    assert(words == seq![host@, "tmux"@] + tmux_args(name@));
    words_are_seen_one_by_one(process.args@);
    assert(words[0] == host@ && words[1] == "tmux"@);
    assert(words.skip(2) == tmux_args(name@));
    assert(forall|i: int| 2 <= i < 8 ==> #[trigger] words[i] == words.skip(2)[i - 2]);
}

proof fn words_are_seen_one_by_one(words: Seq<String>)
    ensures
        words_view(words).len() == words.len(),
        forall|i: int| 0 <= i < words.len() ==> #[trigger] words_view(words)[i] == words[i]@,
{
}

/// The command for a session of our own ends in the whole of the session name,
/// directly behind `-s ` and a text that is the same for every name. The parser
/// knows the host, a failed start is reported, and the session, the poll and
/// its events are those that were handed in.
pub proof fn command_over_ssh_attaches_to_the_whole_name(
    name: &str,
    host: String,
    session: Session,
    poll: Poll,
    events: Events,
    launch: Launch,
)
    requires
        call_ensures(new_with_ssh, (name, SSHData::Native(host, session, poll, events)), launch),
    ensures
        call_requires(new_with_ssh, (name, SSHData::Native(host, session, poll, events))),
        launch.ssh_target matches Some(target) && target@ == host@,
        launch.failure == Some(IvyError::TmuxSpawnFailed),
        launch.route matches Route::Ssh { command, session: s, poll: p, events: e } && {
            let before = command@.len() - name@.len();
            &&& before >= 3
            &&& command@.skip(before) == name@
            &&& command@.subrange(before - 3, before) == seq!['-', 's', ' ']
            &&& command@.take(before) == "tmux -2 -C new-session -A -s "@
            &&& s == session && p == poll && e == events
        },
{
    reveal_strlit("tmux -2 -C new-session -A -s ");
    let command = launch.route->command@;
    let before = command.len() - name@.len();
    assert(command.skip(before) == name@);
    assert(command.subrange(before - 3, before) == seq!['-', 's', ' ']);
    assert(command.take(before) == "tmux -2 -C new-session -A -s "@);
}

/// Launches for two names of sessions differ where the names do: no two
/// sessions are attached to by the same command.
pub proof fn different_names_are_attached_to_differently(
    name: &str,
    other: &str,
    ssh_session: Option<SSHData>,
    launch: Launch,
    other_launch: Launch,
)
    requires
        name@ != other@,
        call_ensures(plan_launch, (name, ssh_session), launch),
        call_ensures(plan_launch, (other, ssh_session), other_launch),
    ensures
        match (launch.route, other_launch.route) {
            (Route::Process(process), Route::Process(other_process)) => {
                &&& process.args@.last()@ == name@
                &&& other_process.args@.last()@ == other@
            },
            (
                Route::Ssh { command, .. },
                Route::Ssh { command: other_command, .. },
            ) => command@ != other_command@,
            _ => false,
        },
{
    match (launch.route, other_launch.route) {
        (Route::Process(process), Route::Process(other_process)) => {
            words_are_seen_one_by_one(process.args@);
            words_are_seen_one_by_one(other_process.args@);
            assert(process@.args.last() == name@);
            assert(other_process@.args.last() == other@);
        },
        (Route::Ssh { command, .. }, Route::Ssh { command: other_command, .. }) => {
            let before = "tmux -2 -C new-session -A -s "@.len() as int;
            assert(command@.skip(before) == name@);
            assert(other_command@.skip(before) == other@);
        },
        _ => {},
    }
}

/// tmux is started on this machine where there is no session, through the `ssh`
/// program where that is the session, and otherwise in the session of our own:
/// each time just as that way of starting does it.
pub proof fn launch_goes_the_way_of_the_session(
    name: &str,
    host: String,
    typed: &str,
    session: Session,
    poll: Poll,
    events: Events,
    here: Launch,
    planned_here: Launch,
    binary: Launch,
    planned_binary: Launch,
    native: Launch,
    planned_native: Launch,
)
    requires
        typed@ == host@,
        call_ensures(new_without_ssh, (name,), here),
        call_ensures(plan_launch, (name, None::<SSHData>), planned_here),
        call_ensures(new_with_ssh_binary, (typed, name), binary),
        call_ensures(plan_launch, (name, Some(SSHData::Binary(host))), planned_binary),
        call_ensures(new_with_ssh, (name, SSHData::Native(host, session, poll, events)), native),
        call_ensures(
            plan_launch,
            (name, Some(SSHData::Native(host, session, poll, events))),
            planned_native,
        ),
    ensures
        launched_alike(here, planned_here),
        launched_alike(binary, planned_binary),
        launched_alike(native, planned_native),
{
}

/// Two launches start tmux in the same way.
pub open spec fn launched_alike(launch: Launch, other: Launch) -> bool {
    &&& launch.ssh_target == other.ssh_target
    &&& launch.failure == other.failure
    &&& match (launch.route, other.route) {
        (Route::Process(process), Route::Process(other_process)) => {
            process@ == other_process@
        },
        (
            Route::Ssh { command, session, poll, events },
            Route::Ssh { command: other_command, session: s, poll: p, events: e },
        ) => command@ == other_command@ && session == s && poll == p && events == e,
        _ => false,
    }
}

/// A route that is taken apart loses nothing: the command, the poll and its
/// events, or the process, are what starts tmux, and the session is kept.
pub proof fn parts_of_a_route_make_it_up(
    command: String,
    session: Session,
    poll: Poll,
    events: Events,
    process: ProcessCommand,
    channel_parts: (Start, Option<Session>),
    process_parts: (Start, Option<Session>),
)
    requires
        call_ensures(
            Route::take_apart,
            (Route::Ssh { command, session, poll, events },),
            channel_parts,
        ),
        call_ensures(Route::take_apart, (Route::Process(process),), process_parts),
    ensures
        channel_parts.0 == (Start::Channel { command, poll, events }),
        channel_parts.1 == Some(session),
        process_parts.0 == Start::Process(process),
        process_parts.1 is None,
{
}

/// From its plan to its end, a tmux session keeps just the SSH session of our
/// own that it was planned with. Where tmux starts, that session is there until
/// the end and is then disconnected, as by the application and because tmux
/// closed; without one there is nothing to disconnect. No size has been told at
/// the start, and none is waiting to be.
pub proof fn session_is_kept_from_plan_to_end(
    name: &str,
    ssh_session: Option<SSHData>,
    launch: Launch,
    parts: (Start, Option<Session>),
    spawned: Result<Option<Session>, IvyError>,
    command_queue: Sender<TmuxCommand>,
    tmux: Result<TmuxAPI, IvyError>,
    farewell: Option<Disconnect>,
)
    requires
        call_ensures(plan_launch, (name, ssh_session), launch),
        call_ensures(Route::take_apart, (launch.route,), parts),
        call_ensures(start_outcome, (launch.failure, true, parts.1), spawned),
        call_ensures(TmuxAPI::new, (spawned, command_queue), tmux),
        tmux matches Ok(api) ==> call_ensures(TmuxAPI::on_drop, (&api,), farewell),
    ensures
        call_requires(start_outcome, (launch.failure, true, parts.1)),
        tmux matches Ok(api) && api.command_queue == command_queue && api.window_size == (
            0i32,
            0i32,
        ) && !api.resize_future,
        ssh_session matches Some(SSHData::Native(_, session, _, _)) ==> tmux->Ok_0.ssh_session
            == Some(session) && (farewell matches Some(last_word) && last_word.code
            is ByApplication && last_word.description@ == "Tmux closed"@),
        !(ssh_session matches Some(SSHData::Native(_, _, _, _))) ==> tmux->Ok_0.ssh_session is None
            && farewell is None,
{
}

/// Over SSH, tmux that did not start is reported as such, whatever session was
/// at hand, and there is no tmux session then.
pub proof fn failed_start_over_ssh_is_reported(
    name: &str,
    data: SSHData,
    launch: Launch,
    session: Option<Session>,
    spawned: Result<Option<Session>, IvyError>,
    command_queue: Sender<TmuxCommand>,
    tmux: Result<TmuxAPI, IvyError>,
)
    requires
        call_ensures(plan_launch, (name, Some(data)), launch),
        call_ensures(start_outcome, (launch.failure, false, session), spawned),
        call_ensures(TmuxAPI::new, (spawned, command_queue), tmux),
    ensures
        call_requires(start_outcome, (launch.failure, false, session)),
        tmux matches Err(error) && error is TmuxSpawnFailed,
{
}

/// A start comes to its session where it succeeded, and to its error where it
/// did not.
pub proof fn start_comes_to_its_session_or_error(
    failure: Option<IvyError>,
    error: IvyError,
    session: Option<Session>,
    started: Result<Option<Session>, IvyError>,
    failed: Result<Option<Session>, IvyError>,
)
    requires
        call_ensures(start_outcome, (failure, true, session), started),
        call_ensures(start_outcome, (Some(error), false, session), failed),
    ensures
        started matches Ok(kept) && kept == session,
        failed matches Err(told) && told == error,
{
}

/// A new parser reads from and reports to the ends that it was given, for the
/// host that it was given, and has read nothing.
pub proof fn new_parser_has_read_nothing(
    events: Sender<TmuxEvent>,
    commands: Receiver<TmuxCommand>,
    ssh_target: Option<String>,
    state: TmuxParserState,
)
    requires
        call_ensures(TmuxParserState::new, (events, commands, ssh_target), state),
    ensures
        state.event_channel == events,
        state.command_queue == commands,
        state.ssh_target == ssh_target,
        state.current_command is None,
        !state.is_error,
        state.result_line == 0,
        state.empty_line_count == 0,
{
}

} // verus!
