use async_channel::unbounded;
use ivyterm::ssh::login::{DisconnectCode, SSHData};
use ivyterm::ssh::readiness::{Readiness, SSH_TOKEN};
use ivyterm::tmux_api::launch::{
    new_with_ssh, new_with_ssh_binary, new_without_ssh, plan_launch, start_outcome, Launch, ProcessCommand, Route,
    Start, StderrTarget, TmuxAPI, TmuxParserState,
};
use ivyterm::tmux_api::queue::new_command_queue;
use ivyterm::tmux_api::reader::{
    read_reply, stderr_text, ProcessEvent, ProcessReader, ProcessStage, ReadFault, ReadReply,
    SshEvent, SshReader, SshStage, Stop,
};
use ivyterm::tmux_api::ring::{
    mapped_ring, new_ring_buffer, read_into_ringbuffer, ring_is_full, MapFailed, RING_SIZE,
};
use ivyterm::tmux_api::types::{IvyError, TmuxCommand, TmuxError, TmuxEvent};
use std::io::{BufRead, Read};
use vmap::io::{Ring, SeqRead, SeqWrite};

fn readable() -> Readiness {
    Readiness {
        token: SSH_TOKEN,
        readable: true,
        error: false,
        read_closed: false,
        write_closed: false,
    }
}

fn reading(events: Vec<Readiness>) -> SshReader {
    SshReader::new().advance(SshEvent::Polled(events))
}

fn bytes(count: usize, full: bool) -> SshEvent {
    SshEvent::Stdout(ReadReply::Bytes { count, full })
}

fn process(launch: Launch) -> ProcessCommand {
    match launch.route {
        Route::Process(process) => process,
        Route::Ssh { .. } => panic!("not a process"),
    }
}

fn native(host: &str) -> SSHData {
    SSHData::Native(
        host.to_string(),
        ssh2::Session::new().unwrap(),
        mio::Poll::new().unwrap(),
        mio::Events::with_capacity(8),
    )
}

#[test]
fn a_new_buffer_is_empty_and_large_enough() {
    let ring = new_ring_buffer().unwrap();
    assert_eq!(RING_SIZE, 16_000);
    assert!(ring.is_empty());
    assert!(ring.write_len() >= RING_SIZE);
    assert_eq!(ring.write_len(), ring.write_capacity());
    assert!(ring.write_capacity().is_power_of_two());
    assert!(!ring_is_full(&ring));
}

#[test]
fn a_ring_that_was_made_is_kept_and_a_failure_told() {
    let mut made = Ring::new(RING_SIZE).unwrap();
    let mut stream: &[u8] = b"abc";
    read_into_ringbuffer(|window: &mut [u8]| stream.read(window), &mut made).unwrap();
    assert_eq!(&mapped_ring(Ok(made)).unwrap()[..], b"abc");
    let error = vmap::Error::input(vmap::Operation::RingAllocate, vmap::Input::InvalidRange);
    let cause = error.to_string();
    match mapped_ring(Err(error)) {
        Err(MapFailed { cause: told }) => assert_eq!(told.to_string(), cause),
        Ok(_) => panic!("made"),
    }
}

#[test]
fn reads_append_to_the_buffer() {
    let mut ring = new_ring_buffer().unwrap();
    let mut stream: &[u8] = b"%begin 1\n";
    let outcome = read_into_ringbuffer(|window: &mut [u8]| stream.read(window), &mut ring);
    assert_eq!(outcome.unwrap(), 9);
    assert_eq!(&ring[..], b"%begin 1\n");
    let mut stream: &[u8] = b"%end 1\n";
    let outcome = read_into_ringbuffer(|window: &mut [u8]| stream.read(window), &mut ring);
    assert_eq!(outcome.unwrap(), 7);
    assert_eq!(&ring[..], b"%begin 1\n%end 1\n");
}

#[test]
fn empty_and_failed_reads_leave_the_buffer_alone() {
    let mut ring = new_ring_buffer().unwrap();
    let mut stream: &[u8] = b"abc";
    read_into_ringbuffer(|window: &mut [u8]| stream.read(window), &mut ring).unwrap();
    let outcome = read_into_ringbuffer(|window: &mut [u8]| stream.read(window), &mut ring);
    assert_eq!(outcome.unwrap(), 0);
    assert_eq!(&ring[..], b"abc");
    let failing = |window: &mut [u8]| -> Result<usize, ReadFault> {
        window[0] = b'x';
        Err(ReadFault::Other)
    };
    assert_eq!(read_into_ringbuffer(failing, &mut ring), Err(ReadFault::Other));
    assert_eq!(&ring[..], b"abc");
}

#[test]
fn a_full_buffer_takes_nothing_more_until_it_is_consumed() {
    let mut ring = new_ring_buffer().unwrap();
    let size = ring.write_capacity();
    let fill = |window: &mut [u8]| -> Result<usize, ReadFault> {
        for (i, byte) in window.iter_mut().enumerate() {
            *byte = (i % 251) as u8;
        }
        Ok(window.len())
    };
    assert_eq!(read_into_ringbuffer(fill, &mut ring), Ok(size));
    assert!(ring_is_full(&ring));
    assert_eq!(
        read_reply(Ok(size), &ring),
        ReadReply::Bytes { count: size, full: true }
    );
    let offered = |window: &mut [u8]| -> Result<usize, ReadFault> { Ok(window.len()) };
    assert_eq!(read_into_ringbuffer(offered, &mut ring), Ok(0));
    // Across the end of the ring, what is read stays in one piece.
    ring.consume(size - 3);
    let mut stream: &[u8] = b"wrapped";
    read_into_ringbuffer(|window: &mut [u8]| stream.read(window), &mut ring).unwrap();
    let last = [(size - 3) % 251, (size - 2) % 251, (size - 1) % 251];
    let mut expected: Vec<u8> = last.iter().map(|n| *n as u8).collect();
    expected.extend_from_slice(b"wrapped");
    assert_eq!(&ring[..], &expected[..]);
}

#[test]
fn more_bytes_than_were_offered_are_not_fed() {
    let mut ring = new_ring_buffer().unwrap();
    let size = ring.write_capacity();
    let boasting = |window: &mut [u8]| -> Result<usize, ReadFault> { Ok(window.len() + 5) };
    assert_eq!(read_into_ringbuffer(boasting, &mut ring), Ok(size + 5));
    assert_eq!(ring.read_len(), size);
}

#[test]
fn read_replies_tell_faults_apart() {
    let ring = new_ring_buffer().unwrap();
    assert_eq!(read_reply(Ok(3), &ring), ReadReply::Bytes { count: 3, full: false });
    assert_eq!(read_reply(Err(ReadFault::WouldBlock), &ring), ReadReply::WouldBlock);
    assert_eq!(read_reply(Err(ReadFault::Other), &ring), ReadReply::Failed);
}

#[test]
fn error_output_is_text() {
    let mut buffer = vec![0u8; 16];
    buffer[..6].copy_from_slice("tmüx!".as_bytes());
    assert_eq!(stderr_text(&buffer, 6), Some("tmüx!".to_string()));
    assert_eq!(stderr_text(&buffer, 0), Some(String::new()));
    // The first byte of a character alone is not UTF-8.
    assert_eq!(stderr_text(&buffer, 3), None);
    assert_eq!(stderr_text(&[0xff], 1), None);
}

#[test]
fn output_is_read_until_it_is_drained() {
    let reader = reading(vec![readable()]);
    assert_eq!(reader.stage(), SshStage::Stdout);
    let reader = reader.advance(bytes(0, false));
    assert_eq!(reader.stage(), SshStage::Stdout);
    let reader = reader.advance(bytes(16_384, true));
    assert_eq!(reader.stage(), SshStage::Parse { read_again: true });
    let reader = reader.advance(SshEvent::Parsed(true));
    assert_eq!(reader.stage(), SshStage::Stdout);
    let reader = reader.advance(bytes(10, false));
    assert_eq!(reader.stage(), SshStage::Parse { read_again: false });
    let reader = reader.advance(SshEvent::Parsed(true));
    assert_eq!(reader.stage(), SshStage::Stderr);
    let reader = reader.advance(SshEvent::Stderr(Err(ReadFault::WouldBlock)));
    assert_eq!(reader.stage(), SshStage::Poll);
}

#[test]
fn output_that_would_block_is_drained() {
    let would_block = SshEvent::Stdout(ReadReply::WouldBlock);
    let reader = reading(vec![readable()]).advance(would_block);
    assert_eq!(reader.stage(), SshStage::Stderr);
    let reader = reader.advance(SshEvent::Stderr(Ok(12)));
    assert_eq!(reader.stage(), SshStage::Poll);
}

#[test]
fn each_readable_event_is_read() {
    let idle = Readiness { readable: false, ..readable() };
    let reader = reading(vec![idle, readable(), readable()]);
    assert_eq!(reader.stage(), SshStage::Stdout);
    let reader = reader
        .advance(SshEvent::Stdout(ReadReply::WouldBlock))
        .advance(SshEvent::Stderr(Err(ReadFault::WouldBlock)));
    assert_eq!(reader.stage(), SshStage::Stdout);
    assert_eq!(reading(vec![idle, idle]).stage(), SshStage::Poll);
    assert_eq!(reading(vec![]).stage(), SshStage::Poll);
}

#[test]
fn a_hangup_stops_reading_after_the_last_output() {
    let hangup = Readiness { read_closed: true, ..readable() };
    let reader = reading(vec![hangup]);
    assert_eq!(reader.stage(), SshStage::Stdout);
    let reader = reader
        .advance(SshEvent::Stdout(ReadReply::WouldBlock))
        .advance(SshEvent::Stderr(Ok(0)));
    assert_eq!(reader.stage(), SshStage::Stopped(Stop::Hangup));
    let silent = Readiness { error: true, readable: false, ..readable() };
    assert_eq!(reading(vec![silent]).stage(), SshStage::Stopped(Stop::Hangup));
}

#[test]
fn failures_stop_reading() {
    let closed = SshStage::Stopped(Stop::Error(TmuxError::SshClosed));
    let unparsed = SshStage::Stopped(Stop::Error(TmuxError::ParseFailed));
    assert_eq!(
        SshReader::new().advance(SshEvent::PollFailed).stage(),
        SshStage::Stopped(Stop::PollFailed)
    );
    let reader = reading(vec![readable()]).advance(SshEvent::Stdout(ReadReply::Failed));
    assert_eq!(reader.stage(), closed);
    let reader = reading(vec![readable()])
        .advance(bytes(1, true))
        .advance(SshEvent::Parsed(false));
    assert_eq!(reader.stage(), unparsed);
    let reader = reading(vec![readable()])
        .advance(SshEvent::Stdout(ReadReply::WouldBlock))
        .advance(SshEvent::Stderr(Err(ReadFault::Other)));
    assert_eq!(reader.stage(), closed);
}

#[test]
fn foreign_tokens_are_told_apart_while_reading() {
    let foreign = Readiness { token: SSH_TOKEN + 1, ..readable() };
    assert_eq!(reading(vec![foreign]).stage(), SshStage::Foreign);
}

#[test]
fn a_process_is_read_and_parsed_in_turn() {
    let reader = ProcessReader::new();
    assert_eq!(reader.stage, ProcessStage::Read);
    let reader = reader.advance(ProcessEvent::Read(Ok(0)));
    assert_eq!(reader.stage, ProcessStage::Read);
    let reader = reader.advance(ProcessEvent::Read(Ok(1)));
    assert_eq!(reader.stage, ProcessStage::Parse);
    assert_eq!(reader.advance(ProcessEvent::Parsed(false)).stage, ProcessStage::Stopped);
    let reader = reader.advance(ProcessEvent::Parsed(true));
    assert_eq!(reader.stage, ProcessStage::Read);
    for fault in [ReadFault::WouldBlock, ReadFault::Other] {
        assert_eq!(reader.advance(ProcessEvent::Read(Err(fault))).stage, ProcessStage::Stopped);
    }
}

#[test]
fn tmux_is_started_on_this_machine() {
    let launch = new_without_ssh("work");
    assert_eq!(launch.ssh_target, None);
    assert_eq!(launch.failure, None);
    let process = process(launch);
    assert_eq!(process.program, "tmux");
    assert_eq!(process.args, ["-2", "-C", "new-session", "-A", "-s", "work"]);
    assert_eq!(process.stderr, StderrTarget::Pipe);
}

#[test]
fn tmux_is_started_through_the_system_program() {
    let launch = new_with_ssh_binary("me@box", "work");
    assert_eq!(launch.ssh_target, None);
    assert_eq!(launch.failure, Some(IvyError::TmuxSpawnFailed));
    let process = process(launch);
    assert_eq!(process.program, "ssh");
    assert_eq!(
        process.args,
        ["me@box", "tmux", "-2", "-C", "new-session", "-A", "-s", "work"]
    );
    assert_eq!(process.stderr, StderrTarget::Inherit);
}

#[test]
fn tmux_is_started_in_a_session_of_our_own() {
    let launch = new_with_ssh("work", native("me@box"));
    assert_eq!(launch.ssh_target, Some("me@box".to_string()));
    assert_eq!(launch.failure, Some(IvyError::TmuxSpawnFailed));
    match launch.route {
        Route::Ssh { command, .. } => {
            assert_eq!(command, "tmux -2 -C new-session -A -s work");
        }
        Route::Process(_) => panic!("not over a session"),
    }
}

#[test]
fn every_route_runs_the_same_command() {
    let local = process(new_without_ssh("work"));
    let remote = process(new_with_ssh_binary("box", "work"));
    let words = format!("{} {}", local.program, local.args.join(" "));
    assert_eq!(remote.args[0], "box");
    assert_eq!(remote.args[1..].join(" "), words);
    match new_with_ssh("work", native("box")).route {
        Route::Ssh { command, .. } => assert_eq!(command, words),
        Route::Process(_) => panic!("not over a session"),
    }
}

#[test]
fn the_route_follows_the_session() {
    assert_eq!(process(plan_launch("work", None)).program, "tmux");
    let binary = SSHData::Binary("me@box".to_string());
    let remote = process(plan_launch("work", Some(binary)));
    assert_eq!(remote.program, "ssh");
    assert_eq!(remote.args[0], "me@box");
    let launch = plan_launch("work", Some(native("box")));
    assert_eq!(launch.ssh_target, Some("box".to_string()));
    assert!(matches!(launch.route, Route::Ssh { .. }));
}

#[test]
fn the_session_that_tmux_runs_in_is_kept() {
    let (start, kept) = plan_launch("work", Some(native("box"))).route.take_apart();
    match start {
        Start::Channel { command, .. } => {
            assert_eq!(command, "tmux -2 -C new-session -A -s work");
        }
        Start::Process(_) => panic!("not over a session"),
    }
    assert!(kept.is_some());
    let binary = SSHData::Binary("me@box".to_string());
    for ssh_session in [Some(binary), None] {
        let (start, kept) = plan_launch("work", ssh_session).route.take_apart();
        match start {
            Start::Process(process) => assert_eq!(process.args.last().unwrap(), "work"),
            Start::Channel { .. } => panic!("not a process"),
        }
        assert!(kept.is_none());
    }
}

#[test]
fn the_reply_to_being_attached_is_awaited_first() {
    let (sender, receiver) = new_command_queue();
    sender.send_blocking(TmuxCommand::TabNew).unwrap();
    assert_eq!(receiver.try_recv(), Ok(TmuxCommand::Init));
    assert_eq!(receiver.try_recv(), Ok(TmuxCommand::TabNew));
    assert!(receiver.try_recv().is_err());
}

#[test]
fn a_started_session_has_told_no_size() {
    let (sender, _receiver) = new_command_queue();
    let tmux = match TmuxAPI::new(Ok(None), sender) {
        Ok(tmux) => tmux,
        Err(_) => panic!("not started"),
    };
    assert_eq!(tmux.window_size, (0, 0));
    assert!(!tmux.resize_future);
    assert!(tmux.ssh_session.is_none());
    assert!(tmux.on_drop().is_none());
}

#[test]
fn a_session_of_our_own_is_disconnected_when_dropped() {
    let (sender, _receiver) = unbounded();
    let session = ssh2::Session::new().unwrap();
    let tmux = match TmuxAPI::new(Ok(Some(session)), sender) {
        Ok(tmux) => tmux,
        Err(_) => panic!("not started"),
    };
    assert!(tmux.ssh_session.is_some());
    let farewell = tmux.on_drop().unwrap();
    assert_eq!(farewell.code, DisconnectCode::ByApplication);
    assert_eq!(farewell.description, "Tmux closed");
}

#[test]
fn a_start_keeps_its_session_or_reports_its_error() {
    let failed = Some(IvyError::TmuxSpawnFailed);
    let session = ssh2::Session::new().unwrap();
    match start_outcome(failed, true, Some(session)) {
        Ok(kept) => assert!(kept.is_some()),
        Err(_) => panic!("not started"),
    }
    assert!(matches!(start_outcome(failed, true, None), Ok(None)));
    assert!(matches!(start_outcome(None, true, None), Ok(None)));
    let session = ssh2::Session::new().unwrap();
    match start_outcome(failed, false, Some(session)) {
        Ok(_) => panic!("started"),
        Err(error) => assert_eq!(error, IvyError::TmuxSpawnFailed),
    }
}

#[test]
fn a_failed_start_is_reported() {
    let (sender, _receiver) = unbounded();
    match TmuxAPI::new(Err(IvyError::TmuxSpawnFailed), sender) {
        Ok(_) => panic!("started"),
        Err(error) => assert_eq!(error, IvyError::TmuxSpawnFailed),
    }
}

#[test]
fn a_new_parser_has_read_nothing() {
    let (event_sender, event_receiver) = unbounded::<TmuxEvent>();
    let (command_sender, command_receiver) = unbounded();
    let state = TmuxParserState::new(event_sender, command_receiver, Some("box".to_string()));
    assert_eq!(state.ssh_target, Some("box".to_string()));
    assert_eq!(state.current_command, None);
    assert!(!state.is_error);
    assert_eq!(state.result_line, 0);
    assert_eq!(state.empty_line_count, 0);
    command_sender.send_blocking(TmuxCommand::Keypress).unwrap();
    assert_eq!(state.command_queue.recv_blocking().unwrap(), TmuxCommand::Keypress);
    state.event_channel.send_blocking(TmuxEvent::Exit).unwrap();
    assert!(matches!(event_receiver.recv_blocking().unwrap(), TmuxEvent::Exit));
}
