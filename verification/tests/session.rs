use ssh_containerd::docker::{
    pull_outcome, remove_outcome, run_stream, stream_step, terminal_size_outcome, ChunkTag,
    Container, Error, OutputChunk, PullEvent, Sink, StartExecReply, StreamAction, StreamEvent,
};
use ssh_containerd::helper::AutoRemoveHashMap;

fn chunk(tag: ChunkTag, bytes: &[u8]) -> StreamEvent {
    StreamEvent::Chunk(OutputChunk { tag, message: bytes.to_vec() })
}

#[test]
fn provision_failure_is_a_runtime_error_not_a_panic() {
    let r = Container::new(Err("no such image: nosuch:latest".to_string()));
    match r {
        Err(Error::Runtime(m)) => assert_eq!(m, "no such image: nosuch:latest"),
        _ => panic!("an invalid image reference must surface as a runtime error"),
    }
}

#[test]
fn provision_keeps_the_runtime_assigned_identifier() {
    let c = Container::new(Ok("c-123".to_string())).unwrap();
    assert_eq!(c.id(), "c-123");
}

#[test]
fn start_failure_keeps_the_session_usable() {
    let mut c = Container::new(Ok("c-1".to_string())).unwrap();
    let r = c.start(Err("socket closed".to_string()));
    assert!(matches!(r, Err(Error::Runtime(_))));
    assert_eq!(c.id(), "c-1");
    assert!(c.start(Ok(())).is_ok());
}

#[test]
fn remove_always_requests_forced_removal() {
    let c = Container::new(Ok("c-9".to_string())).unwrap();
    let req = c.remove();
    assert!(req.force);
    assert_eq!(req.id, "c-9");
    assert!(remove_outcome(Ok(())).is_ok());
    let failed = remove_outcome(Err("conflict".to_string()));
    assert!(matches!(failed, Err(Error::Runtime(_))));
}

#[test]
fn pull_finishes_only_when_the_whole_stream_succeeded() {
    let ok = vec![PullEvent::Progress, PullEvent::Progress];
    assert!(pull_outcome(&ok).is_ok());
    let bad = vec![
        PullEvent::Progress,
        PullEvent::Failed("manifest unknown".to_string()),
        PullEvent::Failed("later".to_string()),
    ];
    match pull_outcome(&bad) {
        Err(Error::Runtime(m)) => assert_eq!(m, "manifest unknown"),
        _ => panic!("the first failure must abort the pull"),
    }
}

#[test]
fn tags_route_to_the_opposite_sink() {
    match stream_step(chunk(ChunkTag::StdErr, b"e")) {
        StreamAction::Write(sink, bytes) => {
            assert_eq!(sink, Sink::Stdout);
            assert_eq!(bytes, b"e".to_vec());
        }
        _ => panic!("a standard-error chunk must be written"),
    }
    match stream_step(chunk(ChunkTag::StdOut, b"o")) {
        StreamAction::Write(sink, bytes) => {
            assert_eq!(sink, Sink::Stderr);
            assert_eq!(bytes, b"o".to_vec());
        }
        _ => panic!("a standard-output chunk must be written"),
    }
    assert!(matches!(stream_step(chunk(ChunkTag::StdIn, b"x")), StreamAction::Skip));
    assert!(matches!(stream_step(chunk(ChunkTag::Console, b"x")), StreamAction::Skip));
    assert!(matches!(
        stream_step(StreamEvent::ReadError("reset".to_string())),
        StreamAction::Fail(Error::Stream(_))
    ));
}

#[test]
fn scripted_hello_lands_on_the_designated_sink() {
    // A standard-output chunk is routed to the local standard-error sink:
    // the tag swap is the pinned-down routing choice.
    let events = vec![chunk(ChunkTag::StdOut, b"HELLO\n")];
    let o = run_stream(events);
    assert_eq!(o.stderr, b"HELLO\n".to_vec());
    assert_eq!(o.stdout, Vec::<u8>::new());
    assert!(o.result.is_ok());
}

#[test]
fn clean_close_ends_attach_without_error() {
    let c = Container::new(Ok("c-2".to_string())).unwrap();
    let exec = c.exec(Ok("e-2".to_string())).unwrap();
    assert_eq!(exec.id(), "e-2");
    let events = vec![chunk(ChunkTag::StdOut, b"bye\n")];
    let o = exec.attach(StartExecReply::Attached, events).unwrap();
    assert!(o.result.is_ok());
    assert_eq!(o.stderr, b"bye\n".to_vec());
}

#[test]
fn forced_drop_ends_attach_with_a_stream_error() {
    let c = Container::new(Ok("c-3".to_string())).unwrap();
    let exec = c.exec(Ok("e-3".to_string())).unwrap();
    let events = vec![
        chunk(ChunkTag::StdOut, b"partial"),
        StreamEvent::ReadError("connection dropped".to_string()),
        chunk(ChunkTag::StdOut, b"never seen"),
    ];
    let o = exec.attach(StartExecReply::Attached, events).unwrap();
    match o.result {
        Err(Error::Stream(m)) => assert_eq!(m, "connection dropped"),
        _ => panic!("a dropped channel must end the attach with a stream error"),
    }
    assert_eq!(o.stderr, b"partial".to_vec());
}

#[test]
fn detached_exec_attach_is_a_no_op() {
    let c = Container::new(Ok("c-4".to_string())).unwrap();
    let exec = c.exec(Ok("e-4".to_string())).unwrap();
    let events = vec![chunk(ChunkTag::StdOut, b"ignored")];
    let o = exec.attach(StartExecReply::Detached, events).unwrap();
    assert!(o.result.is_ok());
    assert!(o.stdout.is_empty());
    assert!(o.stderr.is_empty());
}

#[test]
fn failed_exec_start_aborts_the_attach() {
    let c = Container::new(Ok("c-5".to_string())).unwrap();
    let exec = c.exec(Ok("e-5".to_string())).unwrap();
    let r = exec.attach(StartExecReply::Failed("no such exec".to_string()), Vec::new());
    assert!(matches!(r, Err(Error::Runtime(_))));
}

#[test]
fn terminal_query_failure_is_a_terminal_error() {
    assert_eq!(terminal_size_outcome(Ok((80, 24))).unwrap(), (80, 24));
    let r = terminal_size_outcome(Err("not a tty".to_string()));
    assert!(matches!(r, Err(Error::Terminal(_))));
}

#[test]
fn resize_request_carries_the_exec_identifier_once() {
    let c = Container::new(Ok("c-6".to_string())).unwrap();
    let exec = c.exec(Ok("e-6".to_string())).unwrap();
    let req = exec.resize_request(120, 40);
    assert_eq!(req.id, "e-6");
    assert_eq!(req.width, 120);
    assert_eq!(req.height, 40);
}

#[test]
fn end_to_end_session_round_trip() {
    let progress = vec![PullEvent::Progress];
    assert!(pull_outcome(&progress).is_ok());

    let mut tracking = AutoRemoveHashMap::new(10_000);
    let mut c = Container::new(Ok("c-e2e".to_string())).unwrap();
    tracking.insert(0, c.id().to_string(), "live".to_string());
    assert!(c.start(Ok(())).is_ok());

    let exec = c.exec(Ok("e-e2e".to_string())).unwrap();
    let events = vec![chunk(ChunkTag::StdOut, b"ready\n")];
    let o = exec.attach(StartExecReply::Attached, events).unwrap();
    assert!(o.result.is_ok());
    assert_eq!(o.stderr, b"ready\n".to_vec());

    let req = c.remove();
    assert!(req.force);
    assert!(remove_outcome(Ok(())).is_ok());
    tracking.remove(&req.id);
    assert_eq!(tracking.get("c-e2e"), None);
}
