//! Session lifecycle and the interactive attach protocol.
//!
//! A session is one provisioned container; an exec context is one command
//! run inside it. Every call to the container runtime suspends, so the
//! embedding process performs it and hands the reply back here as a plain
//! value: the functions in this module hold the decisions — which state a
//! reply leads to, which error it surfaces, where each output chunk goes —
//! and each is stated exactly over those replies. The input pump (copying
//! local keystrokes to the remote input channel) is a raw byte copy with no
//! decision in it and stays with the embedding process, as do raw-mode
//! handling of the local sinks and the actual channel reads.

use vstd::prelude::*;

verus! {

/// Failures of the session subsystem.
#[derive(Debug)]
pub enum Error {
    /// Any failure reported by the container runtime.
    Runtime(String),
    /// A local terminal query or mode change failed.
    Terminal(String),
    /// An I/O failure on the local sinks or the remote channels.
    Stream(String),
}

/// The abstract state of a [`Container`].
pub struct ContainerView {
    pub id: Seq<char>,
    pub running: bool,
}

/// A provisioned, startable, removable execution environment. The handle
/// is consumed by [`Container::remove`], so a removed session cannot be
/// used — or removed — again; the compiler rejects the attempt.
pub struct Container {
    id: String,
    running: bool,
}

impl View for Container {
    type V = ContainerView;

    closed spec fn view(&self) -> ContainerView {
        ContainerView { id: self.id@, running: self.running }
    }
}

/// What the library asks of the runtime when a session is removed: removal
/// is always forced, so a still-running container is torn down rather than
/// reported as busy.
pub struct RemoveRequest {
    pub id: String,
    pub force: bool,
}

/// The one-shot resize request for an exec context.
pub struct ResizeRequest {
    pub id: String,
    pub width: u16,
    pub height: u16,
}

impl Container {
    /// Provisions a session from the runtime's reply to a container-create
    /// request. A runtime failure — an invalid image reference included —
    /// surfaces as a runtime error, never as a panic.
    pub fn new(reply: Result<String, String>) -> (r: Result<Container, Error>)
        ensures
            reply matches Ok(id) ==> r matches Ok(c) && c@ == (ContainerView {
                id: id@,
                running: false,
            }),
            reply matches Err(m) ==> r matches Err(e) && e matches Error::Runtime(mm) && mm@
                == m@,
    {
        match reply {
            Ok(id) => Ok(Container { id, running: false }),
            Err(m) => Err(Error::Runtime(m)),
        }
    }

    /// The runtime-assigned identifier; immutable for the session's life.
    pub fn id(&self) -> (r: &str)
        ensures
            r@ == self@.id,
    {
        self.id.as_str()
    }

    /// Applies the runtime's reply to a start request.
    pub fn start(&mut self, reply: Result<(), String>) -> (r: Result<(), Error>)
        ensures
            final(self)@.id == old(self)@.id,
            reply is Ok ==> final(self)@.running && r is Ok,
            reply matches Err(m) ==> final(self)@ == old(self)@ && (r matches Err(e) && e matches
                Error::Runtime(mm) && mm@ == m@),
    {
        match reply {
            Ok(_) => {
                self.running = true;
                Ok(())
            },
            Err(m) => Err(Error::Runtime(m)),
        }
    }

    /// Creates the handle for one command from the runtime's reply to an
    /// exec-create request bound to this session's identifier.
    pub fn exec(&self, reply: Result<String, String>) -> (r: Result<Exec, Error>)
        ensures
            reply matches Ok(id) ==> r matches Ok(e) && e@ == id@,
            reply matches Err(m) ==> r matches Err(e) && e matches Error::Runtime(mm) && mm@
                == m@,
    {
        match reply {
            Ok(id) => Ok(Exec { id }),
            Err(m) => Err(Error::Runtime(m)),
        }
    }

    /// Consumes the session and yields the forced-removal request the
    /// runtime must perform. Because the handle is consumed, removing a
    /// session twice is rejected by the compiler.
    pub fn remove(self) -> (r: RemoveRequest)
        ensures
            r.id@ == self@.id,
            r.force == true,
    {
        RemoveRequest { id: self.id, force: true }
    }
}

/// Interprets the runtime's reply to a forced removal. A failure here is
/// surfaced verbatim: the container may have leaked and the caller must
/// see that, since nothing retries.
pub fn remove_outcome(reply: Result<(), String>) -> (r: Result<(), Error>)
    ensures
        reply is Ok <==> r is Ok,
        reply matches Err(m) ==> r matches Err(e) && e matches Error::Runtime(mm) && mm@ == m@,
{
    match reply {
        Ok(_) => Ok(()),
        Err(m) => Err(Error::Runtime(m)),
    }
}

/// One event of the runtime's image-pull progress stream.
pub enum PullEvent {
    /// A progress report; its payload carries no decision.
    Progress,
    /// The runtime reported the pull failed.
    Failed(String),
}

/// The first failure in a pull progress stream, if any.
pub open spec fn first_pull_failure(events: Seq<PullEvent>) -> Option<Seq<char>>
    decreases events.len(),
{
    if events.len() == 0 {
        None
    } else {
        match events[0] {
            PullEvent::Failed(m) => Some(m@),
            PullEvent::Progress => first_pull_failure(events.drop_first()),
        }
    }
}

/// The outcome of an image pull whose progress stream produced `events`.
/// The stream is drained to completion before this is computed, so a pull
/// reported successful has actually finished, not merely started; the
/// first runtime-reported failure aborts it.
pub fn pull_outcome(events: &Vec<PullEvent>) -> (r: Result<(), Error>)
    ensures
        first_pull_failure(events@) is None <==> r is Ok,
        first_pull_failure(events@) matches Some(m) ==> r matches Err(e) && e matches
            Error::Runtime(mm) && mm@ == m,
{
    let mut i: usize = 0;
    proof {
        assert(events@.skip(0) =~= events@);
    }
    while i < events.len()
        invariant
            i <= events.len(),
            first_pull_failure(events@) == first_pull_failure(events@.skip(i as int)),
        decreases events.len() - i,
    {
        proof {
            assert(events@.skip(i as int)[0] == events@[i as int]);
        }
        match &events[i] {
            PullEvent::Failed(m) => {
                return Err(Error::Runtime(m.clone()));
            },
            PullEvent::Progress => {},
        }
        proof {
            assert(events@.skip(i as int).drop_first() =~= events@.skip(i as int + 1));
        }
        i = i + 1;
    }
    Ok(())
}

/// How the runtime answered a request to start an exec context with
/// interactive attachment.
pub enum StartExecReply {
    /// Attached: an output channel and an input channel were handed out.
    Attached,
    /// The runtime reports the exec context is not attachable; the attach
    /// call is a no-op, not an error.
    Detached,
    /// The start request itself failed.
    Failed(String),
}

/// The tag the runtime puts on each chunk of the multiplexed output
/// channel.
#[derive(Debug, Clone, Copy, PartialEq, Eq)]
pub enum ChunkTag {
    StdIn,
    StdOut,
    StdErr,
    Console,
}

/// One tagged chunk of remote output.
pub struct OutputChunk {
    pub tag: ChunkTag,
    pub message: Vec<u8>,
}

/// One observation on the inbound output channel: a chunk, or the read
/// error that ends streaming. The channel closing cleanly is the end of
/// the observation sequence itself, not an event.
pub enum StreamEvent {
    Chunk(OutputChunk),
    ReadError(String),
}

/// The two local sinks.
#[derive(Debug, Clone, Copy, PartialEq, Eq)]
pub enum Sink {
    Stdout,
    Stderr,
}

/// What the streaming loop does in reaction to one event.
pub enum StreamAction {
    /// Write the bytes to the sink and flush.
    Write(Sink, Vec<u8>),
    /// Ignore the chunk.
    Skip,
    /// Stop streaming and surface the error.
    Fail(Error),
}

/// Bytes written to the local standard-output sink over a streaming
/// session: the payloads of the chunks tagged standard error — each tag
/// routes to the sink opposite its nominal name, a swap kept deliberately
/// for compatibility with existing clients — up to the first read error.
pub open spec fn stdout_bytes(events: Seq<StreamEvent>) -> Seq<u8>
    decreases events.len(),
{
    if events.len() == 0 {
        Seq::empty()
    } else {
        match events[0] {
            StreamEvent::Chunk(c) => if c.tag is StdErr {
                c.message@ + stdout_bytes(events.drop_first())
            } else {
                stdout_bytes(events.drop_first())
            },
            StreamEvent::ReadError(_) => Seq::empty(),
        }
    }
}

/// Bytes written to the local standard-error sink: the payloads of the
/// chunks tagged standard output, up to the first read error.
pub open spec fn stderr_bytes(events: Seq<StreamEvent>) -> Seq<u8>
    decreases events.len(),
{
    if events.len() == 0 {
        Seq::empty()
    } else {
        match events[0] {
            StreamEvent::Chunk(c) => if c.tag is StdOut {
                c.message@ + stderr_bytes(events.drop_first())
            } else {
                stderr_bytes(events.drop_first())
            },
            StreamEvent::ReadError(_) => Seq::empty(),
        }
    }
}

/// The read error that terminates streaming, if one occurs before the
/// channel closes.
pub open spec fn stream_failure(events: Seq<StreamEvent>) -> Option<Seq<char>>
    decreases events.len(),
{
    if events.len() == 0 {
        None
    } else {
        match events[0] {
            StreamEvent::ReadError(m) => Some(m@),
            StreamEvent::Chunk(_) => stream_failure(events.drop_first()),
        }
    }
}

/// The routing decision for one observation on the output channel.
/// Standard-error chunks go to the local standard-output sink and
/// standard-output chunks to the local standard-error sink — the swap is
/// kept deliberately, matching what existing clients expect; other tags
/// are ignored; a read error ends streaming as a stream failure.
pub fn stream_step(event: StreamEvent) -> (a: StreamAction)
    ensures
        match event {
            StreamEvent::Chunk(c) => match c.tag {
                ChunkTag::StdErr => a matches StreamAction::Write(s, b) && s is Stdout && b@
                    == c.message@,
                ChunkTag::StdOut => a matches StreamAction::Write(s, b) && s is Stderr && b@
                    == c.message@,
                _ => a is Skip,
            },
            StreamEvent::ReadError(m) => a matches StreamAction::Fail(e) && e matches
                Error::Stream(mm) && mm@ == m@,
        },
{
    match event {
        StreamEvent::Chunk(c) => match c.tag {
            ChunkTag::StdErr => StreamAction::Write(Sink::Stdout, c.message),
            ChunkTag::StdOut => StreamAction::Write(Sink::Stderr, c.message),
            _ => StreamAction::Skip,
        },
        StreamEvent::ReadError(m) => StreamAction::Fail(Error::Stream(m)),
    }
}

/// What one streaming session produced on each local sink, and how it
/// ended.
pub struct StreamOutcome {
    pub stdout: Vec<u8>,
    pub stderr: Vec<u8>,
    pub result: Result<(), Error>,
}

/// A finished streaming session over `events`: every chunk was routed in
/// order, and the session ended cleanly exactly when no read error
/// occurred.
pub open spec fn stream_outcome_matches(events: Seq<StreamEvent>, o: StreamOutcome) -> bool {
    &&& o.stdout@ == stdout_bytes(events)
    &&& o.stderr@ == stderr_bytes(events)
    &&& match stream_failure(events) {
        None => o.result is Ok,
        Some(m) => o.result matches Err(e) && e matches Error::Stream(mm) && mm@ == m,
    }
}

/// Runs the streaming loop over an observed event sequence: chunks are
/// routed in order as [`stream_step`] decides, and the first read error
/// ends the loop and is surfaced; a sequence that ends without one is a
/// clean close.
pub fn run_stream(events: Vec<StreamEvent>) -> (o: StreamOutcome)
    ensures
        stream_outcome_matches(events@, o),
{
    let mut rest = events;
    let mut out: Vec<u8> = Vec::new();
    let mut err: Vec<u8> = Vec::new();
    while rest.len() > 0
        invariant
            stdout_bytes(events@) == out@ + stdout_bytes(rest@),
            stderr_bytes(events@) == err@ + stderr_bytes(rest@),
            stream_failure(events@) == stream_failure(rest@),
        decreases rest.len(),
    {
        let ghost before = rest@;
        let ev = rest.remove(0);
        proof {
            assert(rest@ =~= before.drop_first());
        }
        match ev {
            StreamEvent::Chunk(c) => {
                let mut msg = c.message;
                match c.tag {
                    ChunkTag::StdErr => out.append(&mut msg),
                    ChunkTag::StdOut => err.append(&mut msg),
                    _ => {},
                }
            },
            StreamEvent::ReadError(m) => {
                return StreamOutcome { stdout: out, stderr: err, result: Err(Error::Stream(m)) };
            },
        }
    }
    StreamOutcome { stdout: out, stderr: err, result: Ok(()) }
}

/// The one-shot terminal-size negotiation: the local terminal is queried
/// exactly once per attach, and a failed query is a terminal failure that
/// aborts the attach before streaming starts.
pub fn terminal_size_outcome(reply: Result<(u16, u16), String>) -> (r: Result<(u16, u16), Error>)
    ensures
        reply matches Ok(d) ==> r matches Ok(dd) && dd == d,
        reply matches Err(m) ==> r matches Err(e) && e matches Error::Terminal(mm) && mm@ == m@,
{
    match reply {
        Ok(d) => Ok(d),
        Err(m) => Err(Error::Terminal(m)),
    }
}

/// A single command bound to a session, capable of interactive attachment.
/// Once its output channel has closed or errored the object is inert.
pub struct Exec {
    id: String,
}

impl View for Exec {
    type V = Seq<char>;

    closed spec fn view(&self) -> Seq<char> {
        self.id@
    }
}

impl Exec {
    /// The runtime-assigned exec identifier.
    pub fn id(&self) -> (r: &str)
        ensures
            r@ == self@,
    {
        self.id.as_str()
    }

    /// The single resize request sent for this exec context; no further
    /// resize events follow for the life of the session.
    pub fn resize_request(&self, width: u16, height: u16) -> (r: ResizeRequest)
        ensures
            r.id@ == self@,
            r.width == width,
            r.height == height,
    {
        ResizeRequest { id: self.id.clone(), width, height }
    }

    /// The whole attach call, given how the start request was answered and
    /// the observations subsequently made on the output channel. A start
    /// failure aborts with a runtime error; a detached reply is a no-op;
    /// an attached reply streams every event in order.
    pub fn attach(&self, start: StartExecReply, events: Vec<StreamEvent>) -> (r: Result<
        StreamOutcome,
        Error,
    >)
        ensures
            match start {
                StartExecReply::Failed(m) => r matches Err(e) && e matches Error::Runtime(mm)
                    && mm@ == m@,
                StartExecReply::Detached => r matches Ok(o) && o.stdout@.len() == 0
                    && o.stderr@.len() == 0 && o.result is Ok,
                StartExecReply::Attached => r matches Ok(o) && stream_outcome_matches(events@, o),
            },
    {
        match start {
            StartExecReply::Failed(m) => Err(Error::Runtime(m)),
            StartExecReply::Detached => Ok(
                StreamOutcome { stdout: Vec::new(), stderr: Vec::new(), result: Ok(()) },
            ),
            StartExecReply::Attached => Ok(run_stream(events)),
        }
    }
}

} // verus!
