//! The capture session: a machine that is told what happened outside
//! (an event) and answers with what to print and what to do next (a step).
//! It never touches a socket, a clock or a disk itself.

use vstd::prelude::*;
use vstd::string::*;
use crate::config::{config_of, Config, ConfigError, ConfigView};
use crate::datagram::{delivered, lemma_buffer_takes_every_datagram, BUFFER_SIZE, MAX_DATAGRAM_SIZE};
use crate::decimal::{append_decimal, decimal};
use crate::error::{CaptureError, Diagnostic, DiagnosticView, EXIT_FAILURE};
use crate::naming::{
    capture_path, file_path, lemma_file_name_injective, lemma_file_path_injective, Sender,
    SenderView,
};
use crate::protocol::{Event, EventView, Request, RequestView, Step, StepView};

verus! {

/// The two states of a session. It starts in `Binding` and moves to
/// `Listening` once, when the socket is bound; there is no way back. A
/// fatal error leaves it where it is: the process ends.
#[derive(Clone, Copy, Debug, PartialEq, Eq, Structural)]
pub enum Phase {
    Binding,
    Listening,
}

/// The request that keeps the loop going.
pub open spec fn receive_next() -> RequestView {
    RequestView::Receive { capacity: BUFFER_SIZE }
}

/// The line that confirms the bound endpoint.
pub open spec fn listening_line(config: ConfigView) -> Seq<char> {
    "Listening for UDP packets on "@ + config.bind_address + ":"@ + decimal(
        config.bind_port as nat,
    ) + "..."@
}

/// The line that names the sender of a saved datagram.
pub open spec fn received_line(sender: SenderView) -> Seq<char> {
    "Received packet from "@ + sender.endpoint()
}

/// The line that names the file of a saved datagram.
pub open spec fn saved_line(path: Seq<char>) -> Seq<char> {
    "Packet saved to: "@ + path
}

/// What the usage line says after `Usage: `, for a program called
/// `program`.
pub open spec fn usage(program: Seq<char>) -> Seq<char> {
    program + " <ip_address> <port> <output_directory>"@
}

/// The name by which the command line `args` calls the program: its first
/// word, or nothing where it has none.
pub open spec fn program_name(args: Seq<String>) -> Seq<char> {
    if args.len() > 0 {
        args[0]@
    } else {
        Seq::empty()
    }
}

/// The diagnostic for a command line that is no configuration: the usage
/// line for a wrong number of arguments, else the argument at fault.
pub open spec fn config_diagnostic(error: ConfigError, args: Seq<String>) -> DiagnosticView {
    let detail = match error {
        ConfigError::WrongArgumentCount => usage(program_name(args)),
        ConfigError::InvalidAddress => args[1]@,
        ConfigError::InvalidPort => args[2]@,
    };
    DiagnosticView {
        error: CaptureError::Config(error),
        message: CaptureError::Config(error).line(detail),
    }
}

/// The step that handles one datagram: with a clock reading, the request
/// to save the payload, unchanged, under the name made of sender and
/// instant; without one, a complaint, and the datagram is dropped.
pub open spec fn capture_step(
    output_dir: Seq<char>,
    payload: Seq<u8>,
    sender: SenderView,
    clock: Result<u128, Seq<char>>,
) -> StepView {
    match clock {
        Ok(nanos) => StepView::quiet(
            RequestView::Save {
                sender,
                path: file_path(output_dir, sender.file_name(nanos)),
                contents: payload,
            },
        ),
        Err(detail) => StepView::complaint(CaptureError::Clock, detail, receive_next()),
    }
}

/// The mathematical value of a [`CaptureSession`].
pub struct SessionView {
    pub phase: Phase,
    pub config: ConfigView,
}

/// The events that a session meets in a phase, as each request is answered
/// by its own events: those of preparing and binding while binding, those
/// of receiving and saving while listening.
pub open spec fn expected(phase: Phase, event: EventView) -> bool {
    match phase {
        Phase::Binding => event is DirectoryReady || event is DirectoryFailed || event is Bound
            || event is BindFailed,
        Phase::Listening => event is Received || event is ReceiveFailed || event is Saved
            || event is SaveFailed,
    }
}

/// The session after an event: binding turns into listening when the
/// socket is bound, and nothing else ever changes.
pub open spec fn next_session(session: SessionView, event: EventView) -> SessionView {
    if session.phase == Phase::Binding && event is Bound {
        SessionView { phase: Phase::Listening, config: session.config }
    } else {
        session
    }
}

/// The request to bind the socket that the configuration names.
pub open spec fn bind_step(config: ConfigView) -> StepView {
    StepView::quiet(RequestView::Bind { address: config.bind_address, port: config.bind_port })
}

/// The answer of a session to an event: a step, or the diagnostic of the
/// fatal error that ends the process. A directory that could not be created because it is
/// there already is as good as one that was created.
pub open spec fn reaction(session: SessionView, event: EventView) -> Result<StepView, DiagnosticView> {
    match event {
        EventView::DirectoryReady => Ok(bind_step(session.config)),
        EventView::DirectoryFailed { already_exists, detail } => if already_exists {
            Ok(bind_step(session.config))
        } else {
            Err(
                DiagnosticView {
                    error: CaptureError::Setup,
                    message: CaptureError::Setup.line(detail),
                },
            )
        },
        EventView::Bound => Ok(
            StepView::report(seq![listening_line(session.config)], receive_next()),
        ),
        EventView::BindFailed { detail } => Err(
            DiagnosticView { error: CaptureError::Bind, message: CaptureError::Bind.line(detail) },
        ),
        EventView::Received { payload, sender, clock } => Ok(
            capture_step(session.config.output_dir, payload, sender, clock),
        ),
        EventView::ReceiveFailed { detail } => Ok(
            StepView::complaint(CaptureError::Receive, detail, receive_next()),
        ),
        EventView::Saved { sender, path } => Ok(
            StepView::report(seq![received_line(sender), saved_line(path)], receive_next()),
        ),
        EventView::SaveFailed { detail } => Ok(
            StepView::complaint(CaptureError::Persist, detail, receive_next()),
        ),
    }
}

/// The session after a run of events, the oldest first.
pub open spec fn session_after(session: SessionView, events: Seq<EventView>) -> SessionView
    decreases events.len(),
{
    if events.len() == 0 {
        session
    } else {
        next_session(session_after(session, events.drop_last()), events.last())
    }
}

/// Only the fatal errors end the process, and a step only ever reports an
/// error that is not fatal.
pub proof fn lemma_only_fatal_errors_end(session: SessionView, event: EventView)
    ensures
        match reaction(session, event) {
            Ok(step) => step.diagnostic matches Some(failure) ==> !failure.error.fatal(),
            Err(failure) => failure.error.fatal(),
        },
{
}

/// A process that cannot start ends at once, with an exit status that is
/// not zero: a command line that is no configuration, an output directory
/// that cannot be created and a socket that cannot be bound are each
/// answered by a fatal failure, never by a request.
pub proof fn lemma_startup_failures_are_fatal(
    session: SessionView,
    args: Seq<String>,
    error: ConfigError,
    detail: Seq<char>,
)
    ensures
        EXIT_FAILURE != 0,
        config_diagnostic(error, args).error == CaptureError::Config(error),
        config_diagnostic(error, args).error.fatal(),
        reaction(session, EventView::DirectoryFailed { already_exists: false, detail })
            matches Err(failure) && failure.error == CaptureError::Setup && failure.error.fatal(),
        reaction(session, EventView::BindFailed { detail }) matches Err(failure) && failure.error
            == CaptureError::Bind && failure.error.fatal(),
{
}

/// No socket is asked for before the output directory is there: the one
/// answer that asks to bind is the answer to the news that the directory
/// is ready, or that it could not be created because it exists.
pub proof fn lemma_bind_follows_directory(session: SessionView, event: EventView)
    requires
        reaction(session, event) matches Ok(step) && step.request is Bind,
    ensures
        event is DirectoryReady || (event matches EventView::DirectoryFailed {
            already_exists,
            ..
        } && already_exists),
{
}

/// A listening session goes on listening: no event takes it back to
/// binding or changes it in any way, and none of the events that it meets
/// is answered by a fatal failure.
pub proof fn lemma_listening_is_steady(session: SessionView, event: EventView)
    requires
        session.phase == Phase::Listening,
    ensures
        next_session(session, event) == session,
        expected(Phase::Listening, event) ==> reaction(session, event) is Ok,
{
}

/// A failed receive does not end the loop, and the datagram that comes
/// next is captured as if nothing had happened.
pub proof fn lemma_receive_error_is_survived(
    session: SessionView,
    detail: Seq<char>,
    payload: Seq<u8>,
    sender: SenderView,
    clock: Result<u128, Seq<char>>,
)
    requires
        session.phase == Phase::Listening,
    ensures
        reaction(session, EventView::ReceiveFailed { detail }) == Ok::<StepView, DiagnosticView>(
            StepView::complaint(CaptureError::Receive, detail, receive_next()),
        ),
        reaction(
            next_session(session, EventView::ReceiveFailed { detail }),
            EventView::Received { payload, sender, clock },
        ) == Ok::<StepView, DiagnosticView>(
            capture_step(session.config.output_dir, payload, sender, clock),
        ),
{
}

/// What went before does not touch the next datagram: after any run of
/// events, failed receives and failed writes among them, a listening
/// session answers an event as it would have at first.
pub proof fn lemma_history_is_forgotten(
    session: SessionView,
    history: Seq<EventView>,
    event: EventView,
)
    requires
        session.phase == Phase::Listening,
    ensures
        session_after(session, history) == session,
        reaction(session_after(session, history), event) == reaction(session, event),
    decreases history.len(),
{
    if history.len() > 0 {
        lemma_history_is_forgotten(session, history.drop_last(), event);
        lemma_listening_is_steady(session, history.last());
    }
}

/// A datagram comes out as it went in: whatever UDP can carry, from the
/// empty payload to the largest, is received whole with the buffer that
/// the session asks for, and the file to save holds exactly its bytes.
pub proof fn lemma_round_trip(
    session: SessionView,
    datagram: Seq<u8>,
    sender: SenderView,
    nanos: u128,
)
    requires
        datagram.len() <= MAX_DATAGRAM_SIZE,
    ensures
        reaction(
            session,
            EventView::Received {
                payload: delivered(datagram, BUFFER_SIZE as nat),
                sender,
                clock: Ok(nanos),
            },
        ) == Ok::<StepView, DiagnosticView>(
            StepView::quiet(
                RequestView::Save {
                    sender,
                    path: file_path(session.config.output_dir, sender.file_name(nanos)),
                    contents: datagram,
                },
            ),
        ),
{
    lemma_buffer_takes_every_datagram(datagram);
}

/// No capture overwrites another as long as sender and clock tell them
/// apart: two datagrams that differ in their sender's address, in their
/// sender's port or in their instant are saved under different paths. So a
/// burst of datagrams of one sender fills as many files as the clock gave
/// different instants.
pub proof fn lemma_captures_do_not_collide(
    session: SessionView,
    payload_a: Seq<u8>,
    sender_a: SenderView,
    nanos_a: u128,
    payload_b: Seq<u8>,
    sender_b: SenderView,
    nanos_b: u128,
)
    requires
        sender_a != sender_b || nanos_a != nanos_b,
    ensures
        ({
            let a = reaction(
                session,
                EventView::Received { payload: payload_a, sender: sender_a, clock: Ok(nanos_a) },
            );
            let b = reaction(
                session,
                EventView::Received { payload: payload_b, sender: sender_b, clock: Ok(nanos_b) },
            );
            &&& a matches Ok(step_a)
            &&& step_a.request matches RequestView::Save { path: path_a, .. }
            &&& b matches Ok(step_b)
            &&& step_b.request matches RequestView::Save { path: path_b, .. }
            &&& path_a != path_b
        }),
{
    let dir = session.config.output_dir;
    if file_path(dir, sender_a.file_name(nanos_a)) == file_path(dir, sender_b.file_name(nanos_b)) {
        lemma_file_path_injective(dir, sender_a.file_name(nanos_a), sender_b.file_name(nanos_b));
        lemma_file_name_injective(sender_a, nanos_a, sender_b, nanos_b);
    }
}

/// The step that prints nothing and asks for `request`.
fn quiet_step(request: Request) -> (step: Step)
    ensures
        step@ == StepView::quiet(request@),
{
    let step = Step { status: Vec::new(), diagnostic: None, request };
    assert(step.status.deep_view() =~= Seq::<Seq<char>>::empty());
    step
}

/// The step that reports `error` and goes on receiving.
fn complaint_step(error: CaptureError, detail: &str) -> (step: Step)
    ensures
        step@ == StepView::complaint(error, detail@, receive_next()),
{
    let step = Step {
        status: Vec::new(),
        diagnostic: Some(Diagnostic::with_detail(error, detail)),
        request: Request::Receive { capacity: BUFFER_SIZE },
    };
    assert(step.status.deep_view() =~= Seq::<Seq<char>>::empty());
    step
}

/// Handles one datagram: names its capture file by sender and instant and
/// asks for the payload to be saved there, or drops the datagram with a
/// complaint where the clock gave no instant.
pub fn handle_packet(
    packet_data: Vec<u8>,
    output_directory: &str,
    source: Sender,
    clock: Result<u128, String>,
) -> (step: Step)
    ensures
        step@ == capture_step(
            output_directory@,
            packet_data@,
            source@,
            match clock {
                Ok(nanos) => Ok(nanos),
                Err(detail) => Err(detail@),
            },
        ),
{
    match clock {
        Ok(nanos) => {
            let name = source.file_name(nanos);
            let path = capture_path(output_directory, name.as_str());
            quiet_step(Request::Save { sender: source, path, contents: packet_data })
        },
        Err(detail) => complaint_step(CaptureError::Clock, detail.as_str()),
    }
}

/// A capture session: its phase and its configuration.
#[derive(Debug)]
pub struct CaptureSession {
    phase: Phase,
    config: Config,
}

impl View for CaptureSession {
    type V = SessionView;

    closed spec fn view(&self) -> SessionView {
        SessionView { phase: self.phase, config: self.config@ }
    }
}

impl CaptureSession {
    /// A session for `config`: it is binding, and asks for the output
    /// directory first.
    pub fn new(config: Config) -> (started: (CaptureSession, Step))
        ensures
            started.0@ == (SessionView { phase: Phase::Binding, config: config@ }),
            started.1@ == StepView::quiet(
                RequestView::PrepareDirectory { path: config@.output_dir },
            ),
    {
        let step = quiet_step(Request::PrepareDirectory { path: config.output_dir.clone() });
        (CaptureSession { phase: Phase::Binding, config }, step)
    }

    /// Starts a session from the command line `args`, the program's name
    /// first. `address` is what came of reading `args[1]` as an IP address:
    /// its canonical text, or `None`. A valid command line gives the
    /// session for its configuration; any other gives the fatal failure to
    /// report, and no session.
    pub fn start(args: &Vec<String>, address: Option<String>) -> (outcome: Result<
        (CaptureSession, Step),
        Diagnostic,
    >)
        ensures
            match outcome {
                Ok((session, step)) => {
                    &&& config_of(args@, address) matches Ok(config)
                    &&& session@ == (SessionView { phase: Phase::Binding, config })
                    &&& step@ == StepView::quiet(
                        RequestView::PrepareDirectory { path: config.output_dir },
                    )
                },
                Err(failure) => {
                    &&& config_of(args@, address) matches Err(error)
                    &&& failure@ == config_diagnostic(error, args@)
                },
            },
    {
        match Config::from_args(args, address) {
            Ok(config) => Ok(CaptureSession::new(config)),
            Err(error) => {
                let kind = CaptureError::Config(error);
                let failure = match error {
                    ConfigError::WrongArgumentCount => {
                        let mut detail = if args.len() > 0 {
                            args[0].clone()
                        } else {
                            String::new()
                        };
                        detail.append(" <ip_address> <port> <output_directory>");
                        Diagnostic::with_detail(kind, detail.as_str())
                    },
                    ConfigError::InvalidAddress => Diagnostic::with_detail(kind, args[1].as_str()),
                    ConfigError::InvalidPort => Diagnostic::with_detail(kind, args[2].as_str()),
                };
                Err(failure)
            },
        }
    }

    /// The phase of the session.
    pub fn phase(&self) -> (phase: Phase)
        ensures
            phase == self@.phase,
    {
        self.phase
    }

    /// The configuration of the session.
    pub fn config(&self) -> (config: &Config)
        ensures
            config@ == self@.config,
    {
        &self.config
    }

    /// The step that asks to bind the socket.
    fn bind_request(&self) -> (step: Step)
        ensures
            step@ == bind_step(self@.config),
    {
        quiet_step(
            Request::Bind {
                address: self.config.bind_address.clone(),
                port: self.config.bind_port,
            },
        )
    }

    /// Answers one event: the step to take, or the fatal failure that ends
    /// the process, which leaves the session as it was.
    pub fn step(&mut self, event: Event) -> (outcome: Result<Step, Diagnostic>)
        ensures
            final(self)@ == next_session(old(self)@, event@),
            match outcome {
                Ok(step) => reaction(old(self)@, event@) == Ok::<StepView, DiagnosticView>(step@),
                Err(failure) => reaction(old(self)@, event@) == Err::<StepView, DiagnosticView>(
                    failure@,
                ),
            },
    {
        match event {
            Event::DirectoryReady => Ok(self.bind_request()),
            Event::DirectoryFailed { already_exists, detail } => {
                if already_exists {
                    Ok(self.bind_request())
                } else {
                    Err(Diagnostic::with_detail(CaptureError::Setup, detail.as_str()))
                }
            },
            Event::Bound => {
                self.phase = Phase::Listening;
                let mut line = String::from_str("Listening for UDP packets on ");
                line.append(self.config.bind_address.as_str());
                line.append(":");
                append_decimal(&mut line, self.config.bind_port as u128);
                line.append("...");
                let mut status: Vec<String> = Vec::new();
                status.push(line);
                let step = Step {
                    status,
                    diagnostic: None,
                    request: Request::Receive { capacity: BUFFER_SIZE },
                };
                assert(step.status.deep_view() =~= seq![listening_line(old(self)@.config)]);
                Ok(step)
            },
            Event::BindFailed { detail } => Err(
                Diagnostic::with_detail(CaptureError::Bind, detail.as_str()),
            ),
            Event::Received { payload, sender, clock } => Ok(
                handle_packet(payload, self.config.output_dir.as_str(), sender, clock),
            ),
            Event::ReceiveFailed { detail } => Ok(
                complaint_step(CaptureError::Receive, detail.as_str()),
            ),
            Event::Saved { sender, path } => {
                let mut received = String::from_str("Received packet from ");
                received.append(sender.endpoint().as_str());
                let mut saved = String::from_str("Packet saved to: ");
                saved.append(path.as_str());
                let mut status: Vec<String> = Vec::new();
                status.push(received);
                status.push(saved);
                let step = Step {
                    status,
                    diagnostic: None,
                    request: Request::Receive { capacity: BUFFER_SIZE },
                };
                assert(step.status.deep_view() =~= seq![
                    received_line(sender@),
                    saved_line(path@),
                ]);
                Ok(step)
            },
            Event::SaveFailed { detail } => Ok(
                complaint_step(CaptureError::Persist, detail.as_str()),
            ),
        }
    }
}

} // verus!
