//! The event loop of the server, for a readiness-based poller such as
//! Linux's epoll.
//!
//! The loop does no I/O. It is a state machine: each step takes the
//! outcome of the last operation as an [`Event`] and answers with the next
//! operation as an [`Action`]. The caller performs the action on the
//! operating system and comes back with its outcome.
//!
//! What the loop does not do, on purpose or not yet:
//! - A connection stays open and registered after it has been answered.
//!   Only a peer that closes has its descriptor closed.
//! - The listening socket is registered one-shot and never registered
//!   again.
//! - An accept that fails is taken as the end of the waiting connections,
//!   whatever made it fail.
//! - A response is cut off behind `BUFFER_SIZE` bytes, and each read must
//!   hold one whole request.
//! - A buffer that holds no request stops the server, as every other fault
//!   does.
//! - The flags that come with a ready descriptor are not looked at.

use vstd::prelude::*;
use vstd::string::StringExecFns;
use crate::request::{ParseError, Request, RequestModel, spec_request};
use crate::response::{Response, wire_image};
use crate::server::server_metrics::ServerMetrics;
use crate::text::{decimal, push_decimal};

verus! {

/// How many connections may wait on the listening socket to be accepted.
pub const SOCKET_BACKLOG: i32 = 128;

/// How many ready descriptors one wait reports at most.
pub const MAX_EVENTS: i32 = 10;

/// How long one wait lasts at most, in milliseconds.
pub const WAIT_TIMEOUT: i32 = 1000;

/// How many bytes one read takes and one write sends at most.
pub const BUFFER_SIZE: usize = 16384;

/// The time between two periodic logs, in milliseconds.
pub const PERIODIC_LOG_INTERVAL: u64 = 10000;

/// How a descriptor is watched. Both ways watch for data to read.
#[derive(Debug, Copy, Clone, PartialEq, Eq, Structural)]
pub enum Interest {
    /// Report readiness once, then watch no more.
    OneShot,
    /// Report each change to ready once: the reader has to drain the
    /// descriptor before it waits again.
    EdgeTriggered,
}

/// Why the server gives up. None of these is recovered from.
#[derive(Debug, Copy, Clone, PartialEq, Eq, Structural)]
pub enum Fault {
    /// The listening socket could not be created.
    CreateSocket,
    /// The status flags of a socket could not be read.
    GetFlags,
    /// The status flags of a socket could not be set.
    SetFlags,
    /// The listening socket could not be bound to its port.
    Bind,
    /// The listening socket could not be made to listen.
    Listen,
    /// The poller could not be created.
    CreatePoll,
    /// A descriptor could not be registered with the poller.
    Register,
    /// The wait for ready descriptors failed.
    Wait,
    /// A read failed for another reason than that no data was there.
    Read,
    /// The bytes that were read hold no request.
    Request(ParseError),
    /// The event is not the outcome of the action that was asked for.
    Unexpected,
}

/// Where the loop stands: which outcome it waits for.
#[derive(Debug, Copy, Clone, PartialEq, Eq, Structural)]
pub enum Phase {
    /// The server has not been started.
    Created,
    /// The listening socket is being created.
    Socket,
    /// The flags of the listening socket are being read.
    ListenerFlags,
    /// The listening socket is being made non-blocking.
    ListenerNonBlocking,
    /// The listening socket is being bound.
    Binding,
    /// The listening socket is being made to listen.
    Listening,
    /// The poller is being created.
    Poll,
    /// The listening socket is being registered.
    ListenerRegistration,
    /// The loop waits for ready descriptors.
    Waiting,
    /// The periodic log is being written, after a wait that reported
    /// `count` ready descriptors.
    Logging { count: i32 },
    /// The application's periodic callback is running.
    Idle,
    /// A connection is being accepted.
    Accepting,
    /// The flags of the accepted connection `fd` are being read.
    ClientFlags { fd: i32 },
    /// The accepted connection `fd` is being made non-blocking.
    ClientNonBlocking { fd: i32 },
    /// The accepted connection `fd` is being registered.
    ClientRegistration { fd: i32 },
    /// The connection `fd` is being read.
    Reading { fd: i32 },
    /// The application is answering a request of the connection `fd`.
    Responding { fd: i32 },
    /// The answer is being written to the connection `fd`.
    Writing { fd: i32 },
    /// The connection `fd` is being closed.
    Closing { fd: i32 },
    /// The server has given up.
    Stopped,
}

/// What the caller is to do next.
pub enum Action {
    /// Create an IPv4 stream socket. Outcome: `Event::SocketCreated`.
    CreateSocket,
    /// Read the status flags of `fd`. Outcome: `Event::Flags`.
    GetFlags { fd: i32 },
    /// Set the status flags of `fd` to `flags` with the non-blocking flag
    /// added. Outcome: `Event::FlagsSet`.
    SetNonBlocking { fd: i32, flags: i32 },
    /// Bind `fd` to `port` on every local address. Outcome: `Event::Bound`.
    Bind { fd: i32, port: u16 },
    /// Make `fd` listen, with room for `backlog` waiting connections.
    /// Outcome: `Event::Listening`.
    Listen { fd: i32, backlog: i32 },
    /// Create the poller. Outcome: `Event::PollCreated`.
    CreatePoll,
    /// Register `fd` with the poller `poll`. Outcome: `Event::Registered`.
    Register { poll: i32, fd: i32, interest: Interest },
    /// Wait on the poller `poll` for at most `max_events` ready
    /// descriptors and at most `timeout` milliseconds. Outcome:
    /// `Event::Ready`.
    Wait { poll: i32, max_events: i32, timeout: i32 },
    /// Accept one connection on the listening socket `fd`. Outcome:
    /// `Event::Accepted`.
    Accept { fd: i32 },
    /// Read at most `capacity` bytes from `fd`. Outcome: `Event::Read`.
    Read { fd: i32, capacity: usize },
    /// Call the application's request callback on `request`. Outcome:
    /// `Event::Response`, with what the callback returned.
    Respond { fd: i32, request: Request },
    /// Write `data` to `fd`. Outcome: `Event::Done`, however the write
    /// went.
    Write { fd: i32, data: Vec<u8> },
    /// Close `fd`. Outcome: `Event::Done`.
    Close { fd: i32 },
    /// Call the application's periodic callback. Outcome: `Event::Done`.
    Periodic,
    /// Write `text` to the diagnostic log. Outcome: `Event::Done`.
    Log { text: String },
    /// Stop the process and report `fault`. No outcome is awaited.
    Abort { fault: Fault },
}

/// What an [`Action`] asks for, as a mathematical value.
pub enum ActionModel {
    CreateSocket,
    GetFlags { fd: i32 },
    SetNonBlocking { fd: i32, flags: i32 },
    Bind { fd: i32, port: u16 },
    Listen { fd: i32, backlog: i32 },
    CreatePoll,
    Register { poll: i32, fd: i32, interest: Interest },
    Wait { poll: i32, max_events: i32, timeout: i32 },
    Accept { fd: i32 },
    Read { fd: i32, capacity: usize },
    Respond { fd: i32, request: RequestModel },
    Write { fd: i32, data: Seq<u8> },
    Close { fd: i32 },
    Periodic,
    Log { text: Seq<char> },
    Abort { fault: Fault },
}

impl View for Action {
    type V = ActionModel;

    open spec fn view(&self) -> ActionModel {
        match *self {
            Action::CreateSocket => ActionModel::CreateSocket,
            Action::GetFlags { fd } => ActionModel::GetFlags { fd },
            Action::SetNonBlocking { fd, flags } => ActionModel::SetNonBlocking { fd, flags },
            Action::Bind { fd, port } => ActionModel::Bind { fd, port },
            Action::Listen { fd, backlog } => ActionModel::Listen { fd, backlog },
            Action::CreatePoll => ActionModel::CreatePoll,
            Action::Register { poll, fd, interest } => ActionModel::Register { poll, fd, interest },
            Action::Wait { poll, max_events, timeout } => ActionModel::Wait {
                poll,
                max_events,
                timeout,
            },
            Action::Accept { fd } => ActionModel::Accept { fd },
            Action::Read { fd, capacity } => ActionModel::Read { fd, capacity },
            Action::Respond { fd, request } => ActionModel::Respond { fd, request: request@ },
            Action::Write { fd, data } => ActionModel::Write { fd, data: data@ },
            Action::Close { fd } => ActionModel::Close { fd },
            Action::Periodic => ActionModel::Periodic,
            Action::Log { text } => ActionModel::Log { text: text@ },
            Action::Abort { fault } => ActionModel::Abort { fault },
        }
    }
}

/// The outcome of the action that was asked for last.
pub enum Event {
    /// The descriptor of the new socket, or a negative number.
    SocketCreated { fd: i32 },
    /// The status flags that were read, or -1.
    Flags { flags: i32 },
    /// What setting the flags returned: -1 where it failed.
    FlagsSet { result: i32 },
    /// What binding returned: a negative number where it failed.
    Bound { result: i32 },
    /// What listening returned: a negative number where it failed.
    Listening { result: i32 },
    /// The descriptor of the new poller, or a negative number.
    PollCreated { fd: i32 },
    /// What registering returned: a negative number where it failed.
    Registered { result: i32 },
    /// What the wait returned: the number of ready descriptors or a
    /// negative number, the ready descriptors in the order in which the
    /// poller gave them, and the time in milliseconds since the server was
    /// made, by a clock that does not run backwards. Where `descriptors`
    /// holds more than `count`, only the first `count` are served.
    Ready { count: i32, descriptors: Vec<i32>, now: u64 },
    /// The descriptor of the accepted connection, or -1 where none waits
    /// or the accept failed.
    Accepted { fd: i32 },
    /// What the read returned: the number of bytes or -1, whether it
    /// failed only because no data was there, and the bytes that were read.
    /// The number decides what follows; the request is read from `data`.
    Read { size: isize, would_block: bool, data: Vec<u8> },
    /// What the request callback returned.
    Response { response: Response },
    /// The action is done and has no outcome that matters.
    Done,
}

/// What an [`Event`] reports, as a mathematical value.
pub enum EventModel {
    SocketCreated { fd: i32 },
    Flags { flags: i32 },
    FlagsSet { result: i32 },
    Bound { result: i32 },
    Listening { result: i32 },
    PollCreated { fd: i32 },
    Registered { result: i32 },
    Ready { count: i32, descriptors: Seq<i32>, now: u64 },
    Accepted { fd: i32 },
    Read { size: isize, would_block: bool, data: Seq<u8> },
    Response { content: Seq<u8>, data: Seq<u8> },
    Done,
}

impl View for Event {
    type V = EventModel;

    open spec fn view(&self) -> EventModel {
        match *self {
            Event::SocketCreated { fd } => EventModel::SocketCreated { fd },
            Event::Flags { flags } => EventModel::Flags { flags },
            Event::FlagsSet { result } => EventModel::FlagsSet { result },
            Event::Bound { result } => EventModel::Bound { result },
            Event::Listening { result } => EventModel::Listening { result },
            Event::PollCreated { fd } => EventModel::PollCreated { fd },
            Event::Registered { result } => EventModel::Registered { result },
            Event::Ready { count, descriptors, now } => EventModel::Ready {
                count,
                descriptors: descriptors@,
                now,
            },
            Event::Accepted { fd } => EventModel::Accepted { fd },
            Event::Read { size, would_block, data } => EventModel::Read {
                size,
                would_block,
                data: data@,
            },
            Event::Response { response } => EventModel::Response {
                content: response.content@,
                data: response.data@,
            },
            Event::Done => EventModel::Done,
        }
    }
}

/// The event loop of a server.
pub struct LinuxServer {
    pub port: u16,
    /// The listening socket; 0 until it has been created.
    pub socket_fd: i32,
    pub socket_backlog: i32,
    pub server_metrics: ServerMetrics,
    /// The time between two periodic logs, in milliseconds.
    pub periodic_log_interval: u64,
    /// When the periodic log was last written, in milliseconds since the
    /// server was made.
    pub last_periodic_log_instant: u64,
    /// The poller; 0 until it has been created.
    pub poll_fd: i32,
    pub phase: Phase,
    /// The descriptors that the last wait reported.
    pub ready: Vec<i32>,
    /// How many of `ready` have been served.
    pub served: usize,
}

/// The state of a [`LinuxServer`] as a mathematical value.
pub struct ServerModel {
    pub port: u16,
    pub socket_fd: i32,
    pub socket_backlog: i32,
    pub server_metrics: ServerMetrics,
    pub periodic_log_interval: u64,
    pub last_periodic_log_instant: u64,
    pub poll_fd: i32,
    pub phase: Phase,
    pub ready: Seq<i32>,
    pub served: nat,
}

impl View for LinuxServer {
    type V = ServerModel;

    open spec fn view(&self) -> ServerModel {
        ServerModel {
            port: self.port,
            socket_fd: self.socket_fd,
            socket_backlog: self.socket_backlog,
            server_metrics: self.server_metrics,
            periodic_log_interval: self.periodic_log_interval,
            last_periodic_log_instant: self.last_periodic_log_instant,
            poll_fd: self.poll_fd,
            phase: self.phase,
            ready: self.ready@,
            served: self.served as nat,
        }
    }
}

/// What a step gives: the state after it and the action to perform.
pub type Step = (ServerModel, ActionModel);

/// The two bytes of a port number in network byte order: the high byte
/// first.
pub open spec fn spec_network_order(port: u16) -> Seq<u8> {
    seq![(port / 256) as u8, (port % 256) as u8]
}

/// The two bytes of a port number in network byte order.
pub fn network_order(port: u16) -> (bytes: [u8; 2])
    ensures
        bytes@ == spec_network_order(port),
{
    let bytes: [u8; 2] = [(port / 256) as u8, (port % 256) as u8];
    assert(bytes@ =~= spec_network_order(port));
    bytes
}

/// The state of a server for `port` that has not been started. Its clock
/// starts now: the periodic log counts as written at time 0.
pub open spec fn spec_new(port: u16) -> ServerModel {
    ServerModel {
        port,
        socket_fd: 0,
        socket_backlog: SOCKET_BACKLOG,
        server_metrics: ServerMetrics { raw_request_count: 0, page_request_count: 0 },
        periodic_log_interval: PERIODIC_LOG_INTERVAL,
        last_periodic_log_instant: 0,
        poll_fd: 0,
        phase: Phase::Created,
        ready: Seq::empty(),
        served: 0,
    }
}

/// The server gives up.
pub open spec fn spec_abort(state: ServerModel, fault: Fault) -> Step {
    (ServerModel { phase: Phase::Stopped, ..state }, ActionModel::Abort { fault })
}

/// The loop goes back to waiting.
pub open spec fn spec_wait(state: ServerModel) -> Step {
    (
        ServerModel { phase: Phase::Waiting, ..state },
        ActionModel::Wait { poll: state.poll_fd, max_events: MAX_EVENTS, timeout: WAIT_TIMEOUT },
    )
}

/// The loop asks for the next connection that waits on the listening
/// socket.
pub open spec fn spec_accept(state: ServerModel) -> Step {
    (ServerModel { phase: Phase::Accepting, ..state }, ActionModel::Accept { fd: state.socket_fd })
}

/// The loop asks for the next bytes of the connection `fd`.
pub open spec fn spec_read(state: ServerModel, fd: i32) -> Step {
    (
        ServerModel { phase: Phase::Reading { fd }, ..state },
        ActionModel::Read { fd, capacity: BUFFER_SIZE },
    )
}

/// The loop turns to the first ready descriptor that has not been served:
/// it accepts on the listening socket and reads from any other. With none
/// left it waits again.
pub open spec fn spec_serve(state: ServerModel) -> Step {
    if state.served < state.ready.len() {
        let fd = state.ready[state.served as int];
        if fd == state.socket_fd {
            spec_accept(state)
        } else {
            spec_read(state, fd)
        }
    } else {
        spec_wait(state)
    }
}

/// The loop is done with the descriptor that it served and turns to the
/// next.
pub open spec fn spec_advance(state: ServerModel) -> Step {
    if state.served < state.ready.len() {
        spec_serve(ServerModel { served: state.served + 1, ..state })
    } else {
        spec_serve(state)
    }
}

/// How long ago the periodic log was last written, at the time `now`.
pub open spec fn spec_elapsed(state: ServerModel, now: u64) -> u64 {
    if now >= state.last_periodic_log_instant {
        (now - state.last_periodic_log_instant) as u64
    } else {
        0
    }
}

/// Whether the periodic log is to be written at the time `now`: the
/// interval has passed since it was last written.
pub open spec fn spec_log_due(state: ServerModel, now: u64) -> bool {
    spec_elapsed(state, now) >= state.periodic_log_interval
}

/// The text of the periodic log: the time since the last one and the two
/// counters, each on a line of its own.
pub open spec fn spec_periodic_log(elapsed: u64, metrics: ServerMetrics) -> Seq<char> {
    "periodic_log:\n    time_elapsed: "@ + decimal(elapsed as nat) + "\n    raw_request_count: "@
        + decimal(metrics.raw_request_count as nat) + "\n    page_request_count: "@ + decimal(
        metrics.page_request_count as nat,
    ) + "\n"@
}

/// What follows a wait that reported `count` ready descriptors, once the
/// periodic log has had its turn: a failed wait ends the server, a wait
/// that found nothing ready calls the periodic callback, and any other
/// serves the ready descriptors from the first on.
pub open spec fn spec_after_wait(state: ServerModel, count: i32) -> Step {
    if count < 0 {
        spec_abort(state, Fault::Wait)
    } else if count == 0 {
        (ServerModel { phase: Phase::Idle, ..state }, ActionModel::Periodic)
    } else {
        spec_serve(ServerModel { served: 0, ..state })
    }
}

/// The descriptors that a wait reported: the first `count` of
/// `descriptors`, or all of them where there are no more.
pub open spec fn spec_batch(count: i32, descriptors: Seq<i32>) -> Seq<i32> {
    if 0 <= count < descriptors.len() {
        descriptors.take(count as int)
    } else {
        descriptors
    }
}

/// What follows a wait. The periodic log comes first, whatever the wait
/// reported: where it is due it is written and its time is set to `now`.
pub open spec fn spec_ready(state: ServerModel, count: i32, descriptors: Seq<i32>, now: u64) -> Step {
    let state = ServerModel { ready: spec_batch(count, descriptors), served: 0, ..state };
    if spec_log_due(state, now) {
        (
            ServerModel {
                phase: Phase::Logging { count },
                last_periodic_log_instant: now,
                ..state
            },
            ActionModel::Log {
                text: spec_periodic_log(spec_elapsed(state, now), state.server_metrics),
            },
        )
    } else {
        spec_after_wait(state, count)
    }
}

/// What follows a read from the connection `fd`. A read that found no data
/// ends the service of the connection and leaves it open. A read that
/// failed otherwise ends the server. A read of no bytes means that the
/// peer has closed: the connection is closed, and no request is handed to
/// the application. Any other read must hold a whole request, which goes
/// to the application.
pub open spec fn spec_process(
    state: ServerModel,
    fd: i32,
    size: isize,
    would_block: bool,
    data: Seq<u8>,
) -> Step {
    if size < 0 {
        if would_block {
            spec_advance(state)
        } else {
            spec_abort(state, Fault::Read)
        }
    } else if size == 0 {
        (ServerModel { phase: Phase::Closing { fd }, ..state }, ActionModel::Close { fd })
    } else {
        match spec_request(data) {
            Err(e) => spec_abort(state, Fault::Request(e)),
            Ok(request) => (
                ServerModel { phase: Phase::Responding { fd }, ..state },
                ActionModel::Respond { fd, request },
            ),
        }
    }
}

/// The bytes that go out for a response: its wire image, which follows
/// whatever its `data` held before, cut off behind `BUFFER_SIZE` bytes.
pub open spec fn spec_outgoing(content: Seq<u8>, data: Seq<u8>) -> Seq<u8> {
    let image = data + wire_image(content);
    if image.len() > BUFFER_SIZE {
        image.take(BUFFER_SIZE as int)
    } else {
        image
    }
}

/// The first step of a server: it creates the listening socket. A server
/// that has been started before gives up.
pub open spec fn spec_start(state: ServerModel) -> Step {
    if state.phase == Phase::Created {
        (ServerModel { phase: Phase::Socket, ..state }, ActionModel::CreateSocket)
    } else {
        spec_abort(state, Fault::Unexpected)
    }
}

/// One step of the loop: the state and the action that follow `event` in
/// `state`. An event that is not the outcome of the action that the state
/// waits for ends the server.
pub open spec fn spec_step(state: ServerModel, event: EventModel) -> Step {
    match (state.phase, event) {
        (Phase::Socket, EventModel::SocketCreated { fd }) => if fd < 0 {
            spec_abort(state, Fault::CreateSocket)
        } else {
            (
                ServerModel { phase: Phase::ListenerFlags, socket_fd: fd, ..state },
                ActionModel::GetFlags { fd },
            )
        },
        (Phase::ListenerFlags, EventModel::Flags { flags }) => if flags == -1 {
            spec_abort(state, Fault::GetFlags)
        } else {
            (
                ServerModel { phase: Phase::ListenerNonBlocking, ..state },
                ActionModel::SetNonBlocking { fd: state.socket_fd, flags },
            )
        },
        (Phase::ListenerNonBlocking, EventModel::FlagsSet { result }) => if result == -1 {
            spec_abort(state, Fault::SetFlags)
        } else {
            (
                ServerModel { phase: Phase::Binding, ..state },
                ActionModel::Bind { fd: state.socket_fd, port: state.port },
            )
        },
        (Phase::Binding, EventModel::Bound { result }) => if result < 0 {
            spec_abort(state, Fault::Bind)
        } else {
            (
                ServerModel { phase: Phase::Listening, ..state },
                ActionModel::Listen { fd: state.socket_fd, backlog: state.socket_backlog },
            )
        },
        (Phase::Listening, EventModel::Listening { result }) => if result < 0 {
            spec_abort(state, Fault::Listen)
        } else {
            (ServerModel { phase: Phase::Poll, ..state }, ActionModel::CreatePoll)
        },
        (Phase::Poll, EventModel::PollCreated { fd }) => if fd < 0 {
            spec_abort(state, Fault::CreatePoll)
        } else {
            (
                ServerModel { phase: Phase::ListenerRegistration, poll_fd: fd, ..state },
                ActionModel::Register { poll: fd, fd: state.socket_fd, interest: Interest::OneShot },
            )
        },
        (Phase::ListenerRegistration, EventModel::Registered { result }) => if result < 0 {
            spec_abort(state, Fault::Register)
        } else {
            spec_wait(state)
        },
        (Phase::Waiting, EventModel::Ready { count, descriptors, now }) => spec_ready(
            state,
            count,
            descriptors,
            now,
        ),
        (Phase::Logging { count }, EventModel::Done) => spec_after_wait(state, count),
        (Phase::Idle, EventModel::Done) => spec_wait(state),
        (Phase::Accepting, EventModel::Accepted { fd }) => if fd == -1 {
            spec_advance(state)
        } else {
            (ServerModel { phase: Phase::ClientFlags { fd }, ..state }, ActionModel::GetFlags { fd })
        },
        (Phase::ClientFlags { fd }, EventModel::Flags { flags }) => if flags == -1 {
            spec_abort(state, Fault::GetFlags)
        } else {
            (
                ServerModel { phase: Phase::ClientNonBlocking { fd }, ..state },
                ActionModel::SetNonBlocking { fd, flags },
            )
        },
        (Phase::ClientNonBlocking { fd }, EventModel::FlagsSet { result }) => if result == -1 {
            spec_abort(state, Fault::SetFlags)
        } else {
            (
                ServerModel { phase: Phase::ClientRegistration { fd }, ..state },
                ActionModel::Register {
                    poll: state.poll_fd,
                    fd,
                    interest: Interest::EdgeTriggered,
                },
            )
        },
        (Phase::ClientRegistration { fd }, EventModel::Registered { result }) => if result == -1 {
            spec_abort(state, Fault::Register)
        } else {
            spec_accept(state)
        },
        (Phase::Reading { fd }, EventModel::Read { size, would_block, data }) => spec_process(
            state,
            fd,
            size,
            would_block,
            data,
        ),
        (Phase::Responding { fd }, EventModel::Response { content, data }) => (
            ServerModel { phase: Phase::Writing { fd }, ..state },
            ActionModel::Write { fd, data: spec_outgoing(content, data) },
        ),
        (Phase::Writing { fd }, EventModel::Done) => spec_read(state, fd),
        (Phase::Closing { fd }, EventModel::Done) => spec_advance(state),
        _ => spec_abort(state, Fault::Unexpected),
    }
}

impl LinuxServer {
    /// A server for `port` that has not been started.
    pub fn new(port: u16) -> (server: LinuxServer)
        ensures
            server@ == spec_new(port),
    {
        LinuxServer {
            port,
            socket_fd: 0,
            socket_backlog: SOCKET_BACKLOG,
            server_metrics: ServerMetrics::new(),
            periodic_log_interval: PERIODIC_LOG_INTERVAL,
            last_periodic_log_instant: 0,
            poll_fd: 0,
            phase: Phase::Created,
            ready: Vec::new(),
            served: 0,
        }
    }

    /// Starts the server: asks for the listening socket.
    pub fn start(&mut self) -> (action: Action)
        ensures
            (final(self)@, action@) == spec_start(old(self)@),
    {
        match self.phase {
            Phase::Created => {
                self.phase = Phase::Socket;
                Action::CreateSocket
            },
            _ => self.abort(Fault::Unexpected),
        }
    }

    fn abort(&mut self, fault: Fault) -> (action: Action)
        ensures
            (final(self)@, action@) == spec_abort(old(self)@, fault),
    {
        self.phase = Phase::Stopped;
        Action::Abort { fault }
    }

    fn wait(&mut self) -> (action: Action)
        ensures
            (final(self)@, action@) == spec_wait(old(self)@),
    {
        self.phase = Phase::Waiting;
        Action::Wait { poll: self.poll_fd, max_events: MAX_EVENTS, timeout: WAIT_TIMEOUT }
    }

    fn accept(&mut self) -> (action: Action)
        ensures
            (final(self)@, action@) == spec_accept(old(self)@),
    {
        self.phase = Phase::Accepting;
        Action::Accept { fd: self.socket_fd }
    }

    fn read(&mut self, fd: i32) -> (action: Action)
        ensures
            (final(self)@, action@) == spec_read(old(self)@, fd),
    {
        self.phase = Phase::Reading { fd };
        Action::Read { fd, capacity: BUFFER_SIZE }
    }

    fn serve(&mut self) -> (action: Action)
        ensures
            (final(self)@, action@) == spec_serve(old(self)@),
    {
        if self.served < self.ready.len() {
            let fd = self.ready[self.served];
            if fd == self.socket_fd {
                self.accept()
            } else {
                self.read(fd)
            }
        } else {
            self.wait()
        }
    }

    fn advance(&mut self) -> (action: Action)
        ensures
            (final(self)@, action@) == spec_advance(old(self)@),
    {
        if self.served < self.ready.len() {
            self.served = self.served + 1;
        }
        self.serve()
    }

    /// The text of the periodic log, `elapsed` milliseconds after the last
    /// one.
    pub fn periodic_log(&self, elapsed: u64) -> (text: String)
        ensures
            text@ == spec_periodic_log(elapsed, self.server_metrics),
    {
        let mut text = String::from_str("periodic_log:\n    time_elapsed: ");
        push_decimal(&mut text, elapsed);
        text.append("\n    raw_request_count: ");
        push_decimal(&mut text, self.server_metrics.raw_request_count as u64);
        text.append("\n    page_request_count: ");
        push_decimal(&mut text, self.server_metrics.page_request_count as u64);
        text.append("\n");
        text
    }

    /// Gives the text of the periodic log where it is due at the time
    /// `now`, and then counts it as written at `now`.
    pub fn handle_periodic_log(&mut self, now: u64) -> (text: Option<String>)
        ensures
            match text {
                Some(text) => spec_log_due(old(self)@, now) && text@ == spec_periodic_log(
                    spec_elapsed(old(self)@, now),
                    old(self).server_metrics,
                ) && final(self)@ == (ServerModel { last_periodic_log_instant: now, ..old(self)@ }),
                None => !spec_log_due(old(self)@, now) && final(self)@ == old(self)@,
            },
    {
        let elapsed: u64 = if now >= self.last_periodic_log_instant {
            now - self.last_periodic_log_instant
        } else {
            0
        };
        if elapsed >= self.periodic_log_interval {
            let text = self.periodic_log(elapsed);
            self.last_periodic_log_instant = now;
            Some(text)
        } else {
            None
        }
    }

    fn after_wait(&mut self, count: i32) -> (action: Action)
        ensures
            (final(self)@, action@) == spec_after_wait(old(self)@, count),
    {
        if count < 0 {
            self.abort(Fault::Wait)
        } else if count == 0 {
            self.phase = Phase::Idle;
            Action::Periodic
        } else {
            self.served = 0;
            self.serve()
        }
    }

    fn ready(&mut self, count: i32, descriptors: Vec<i32>, now: u64) -> (action: Action)
        ensures
            (final(self)@, action@) == spec_ready(old(self)@, count, descriptors@, now),
    {
        let mut descriptors = descriptors;
        if count >= 0 && (count as usize) < descriptors.len() {
            descriptors.truncate(count as usize);
        }
        self.ready = descriptors;
        self.served = 0;
        match self.handle_periodic_log(now) {
            Some(text) => {
                self.phase = Phase::Logging { count };
                Action::Log { text }
            },
            None => self.after_wait(count),
        }
    }

    fn process_event(&mut self, fd: i32, size: isize, would_block: bool, data: Vec<u8>) -> (action:
        Action)
        ensures
            (final(self)@, action@) == spec_process(old(self)@, fd, size, would_block, data@),
    {
        if size < 0 {
            if would_block {
                self.advance()
            } else {
                self.abort(Fault::Read)
            }
        } else if size == 0 {
            self.phase = Phase::Closing { fd };
            Action::Close { fd }
        } else {
            match Request::parse(data.as_slice()) {
                Err(e) => self.abort(Fault::Request(e)),
                Ok(request) => {
                    self.phase = Phase::Responding { fd };
                    Action::Respond { fd, request }
                },
            }
        }
    }

    /// One step of the loop: takes the outcome of the last action and
    /// gives the next action.
    pub fn step(&mut self, event: Event) -> (action: Action)
        ensures
            (final(self)@, action@) == spec_step(old(self)@, event@),
    {
        match (self.phase, event) {
            (Phase::Socket, Event::SocketCreated { fd }) => {
                if fd < 0 {
                    self.abort(Fault::CreateSocket)
                } else {
                    self.socket_fd = fd;
                    self.phase = Phase::ListenerFlags;
                    Action::GetFlags { fd }
                }
            },
            (Phase::ListenerFlags, Event::Flags { flags }) => {
                if flags == -1 {
                    self.abort(Fault::GetFlags)
                } else {
                    self.phase = Phase::ListenerNonBlocking;
                    Action::SetNonBlocking { fd: self.socket_fd, flags }
                }
            },
            (Phase::ListenerNonBlocking, Event::FlagsSet { result }) => {
                if result == -1 {
                    self.abort(Fault::SetFlags)
                } else {
                    self.phase = Phase::Binding;
                    Action::Bind { fd: self.socket_fd, port: self.port }
                }
            },
            (Phase::Binding, Event::Bound { result }) => {
                if result < 0 {
                    self.abort(Fault::Bind)
                } else {
                    self.phase = Phase::Listening;
                    Action::Listen { fd: self.socket_fd, backlog: self.socket_backlog }
                }
            },
            (Phase::Listening, Event::Listening { result }) => {
                if result < 0 {
                    self.abort(Fault::Listen)
                } else {
                    self.phase = Phase::Poll;
                    Action::CreatePoll
                }
            },
            (Phase::Poll, Event::PollCreated { fd }) => {
                if fd < 0 {
                    self.abort(Fault::CreatePoll)
                } else {
                    self.poll_fd = fd;
                    self.phase = Phase::ListenerRegistration;
                    Action::Register { poll: fd, fd: self.socket_fd, interest: Interest::OneShot }
                }
            },
            (Phase::ListenerRegistration, Event::Registered { result }) => {
                if result < 0 {
                    self.abort(Fault::Register)
                } else {
                    self.wait()
                }
            },
            (Phase::Waiting, Event::Ready { count, descriptors, now }) => self.ready(
                count,
                descriptors,
                now,
            ),
            (Phase::Logging { count }, Event::Done) => self.after_wait(count),
            (Phase::Idle, Event::Done) => self.wait(),
            (Phase::Accepting, Event::Accepted { fd }) => {
                if fd == -1 {
                    self.advance()
                } else {
                    self.phase = Phase::ClientFlags { fd };
                    Action::GetFlags { fd }
                }
            },
            (Phase::ClientFlags { fd }, Event::Flags { flags }) => {
                if flags == -1 {
                    self.abort(Fault::GetFlags)
                } else {
                    self.phase = Phase::ClientNonBlocking { fd };
                    Action::SetNonBlocking { fd, flags }
                }
            },
            (Phase::ClientNonBlocking { fd }, Event::FlagsSet { result }) => {
                if result == -1 {
                    self.abort(Fault::SetFlags)
                } else {
                    self.phase = Phase::ClientRegistration { fd };
                    Action::Register { poll: self.poll_fd, fd, interest: Interest::EdgeTriggered }
                }
            },
            (Phase::ClientRegistration { fd }, Event::Registered { result }) => {
                if result == -1 {
                    self.abort(Fault::Register)
                } else {
                    self.accept()
                }
            },
            (Phase::Reading { fd }, Event::Read { size, would_block, data }) => self.process_event(
                fd,
                size,
                would_block,
                data,
            ),
            (Phase::Responding { fd }, Event::Response { response }) => {
                self.phase = Phase::Writing { fd };
                Action::Write { fd, data: outgoing(response) }
            },
            (Phase::Writing { fd }, Event::Done) => self.read(fd),
            (Phase::Closing { fd }, Event::Done) => self.advance(),
            _ => self.abort(Fault::Unexpected),
        }
    }
}

/// The bytes that go out for `response`: it is written, and what does not
/// fit into `BUFFER_SIZE` bytes is cut off.
pub fn outgoing(response: Response) -> (data: Vec<u8>)
    ensures
        data@ == spec_outgoing(response.content@, response.data@),
{
    let mut response = response;
    response.write_response();
    let mut data = response.data;
    if data.len() > BUFFER_SIZE {
        data.truncate(BUFFER_SIZE);
    }
    data
}

/// What a run of steps gives: the state after the events have been taken
/// in their order, and the actions that answered them.
pub open spec fn spec_run(state: ServerModel, events: Seq<EventModel>) -> (ServerModel, Seq<ActionModel>)
    decreases events.len(),
{
    if events.len() == 0 {
        (state, Seq::empty())
    } else {
        let (before, actions) = spec_run(state, events.drop_last());
        let (after, action) = spec_step(before, events.last());
        (after, actions.push(action))
    }
}

/// The outcomes of accepting the connections `pending`, each given by its
/// descriptor and its status flags: for each in turn the accept gives the
/// descriptor, its flags are read and set, and it is registered.
pub open spec fn spec_accepted(pending: Seq<(i32, i32)>) -> Seq<EventModel>
    decreases pending.len(),
{
    if pending.len() == 0 {
        Seq::empty()
    } else {
        spec_accepted(pending.drop_last()).push(EventModel::Accepted { fd: pending.last().0 }).push(
            EventModel::Flags { flags: pending.last().1 },
        ).push(EventModel::FlagsSet { result: 0 }).push(EventModel::Registered { result: 0 })
    }
}

/// A run with one more event is the run without it, and then one step.
pub proof fn lemma_run_push(state: ServerModel, events: Seq<EventModel>, event: EventModel)
    ensures
        spec_run(state, events.push(event)) == ({
            let (before, actions) = spec_run(state, events);
            let (after, action) = spec_step(before, event);
            (after, actions.push(action))
        }),
{
    assert(events.push(event).drop_last() =~= events);
}

/// The accept loop drains the listening socket. While the loop accepts,
/// every connection that waits is made non-blocking and registered for
/// edge-triggered reads, in the order in which the connections are
/// accepted. No other action comes between, so the loop does not wait
/// again before all of them are registered, and after the last it asks for
/// one more connection in the state in which it began.
pub proof fn lemma_accept_drains(state: ServerModel, pending: Seq<(i32, i32)>)
    requires
        state.phase == Phase::Accepting,
        forall|i: int| 0 <= i < pending.len() ==> (#[trigger] pending[i]).0 != -1 && pending[i].1 != -1,
    ensures
        ({
            let (after, actions) = spec_run(state, spec_accepted(pending));
            &&& after == state
            &&& actions.len() == 4 * pending.len()
            &&& forall|i: int|
                0 <= i < pending.len() ==> {
                    &&& actions[4 * i] == ActionModel::GetFlags { fd: (#[trigger] pending[i]).0 }
                    &&& actions[4 * i + 1] == ActionModel::SetNonBlocking {
                        fd: pending[i].0,
                        flags: pending[i].1,
                    }
                    &&& actions[4 * i + 2] == ActionModel::Register {
                        poll: state.poll_fd,
                        fd: pending[i].0,
                        interest: Interest::EdgeTriggered,
                    }
                    &&& actions[4 * i + 3] == ActionModel::Accept { fd: state.socket_fd }
                }
        }),
    decreases pending.len(),
{
    if pending.len() > 0 {
        let front = pending.drop_last();
        let last = pending.last();
        assert forall|i: int| 0 <= i < front.len() implies (#[trigger] front[i]).0 != -1
            && front[i].1 != -1 by {
            assert(front[i] == pending[i]);
        }
        lemma_accept_drains(state, front);
        let e0 = spec_accepted(front);
        let e1 = e0.push(EventModel::Accepted { fd: last.0 });
        let e2 = e1.push(EventModel::Flags { flags: last.1 });
        let e3 = e2.push(EventModel::FlagsSet { result: 0 });
        lemma_run_push(state, e0, EventModel::Accepted { fd: last.0 });
        lemma_run_push(state, e1, EventModel::Flags { flags: last.1 });
        lemma_run_push(state, e2, EventModel::FlagsSet { result: 0 });
        lemma_run_push(state, e3, EventModel::Registered { result: 0 });
        let (after, actions) = spec_run(state, spec_accepted(pending));
        let (_, before) = spec_run(state, e0);
        assert(after =~= state);
        assert forall|i: int| 0 <= i < pending.len() implies {
            &&& actions[4 * i] == ActionModel::GetFlags { fd: (#[trigger] pending[i]).0 }
            &&& actions[4 * i + 1] == ActionModel::SetNonBlocking {
                fd: pending[i].0,
                flags: pending[i].1,
            }
            &&& actions[4 * i + 2] == ActionModel::Register {
                poll: state.poll_fd,
                fd: pending[i].0,
                interest: Interest::EdgeTriggered,
            }
            &&& actions[4 * i + 3] == ActionModel::Accept { fd: state.socket_fd }
        } by {
            if i < front.len() {
                assert(front[i] == pending[i]);
                assert(actions[4 * i] == before[4 * i]);
                assert(actions[4 * i + 1] == before[4 * i + 1]);
                assert(actions[4 * i + 2] == before[4 * i + 2]);
                assert(actions[4 * i + 3] == before[4 * i + 3]);
            }
        }
    }
}

/// When the accept reports that no connection waits any more, the loop
/// leaves the listening socket and turns to the next ready descriptor, or
/// waits again where there is none.
pub proof fn lemma_accept_ends(state: ServerModel)
    requires
        state.phase == Phase::Accepting,
    ensures
        spec_step(state, EventModel::Accepted { fd: -1i32 }) == spec_advance(state),
        state.served + 1 >= state.ready.len() ==> spec_step(
            state,
            EventModel::Accepted { fd: -1i32 },
        ).1 == (ActionModel::Wait {
            poll: state.poll_fd,
            max_events: MAX_EVENTS,
            timeout: WAIT_TIMEOUT,
        }),
{
}

/// A connection whose peer has closed is closed. A read of no bytes is
/// answered by closing the descriptor, whatever else the read reports: no
/// request goes to the application. After the close the loop turns to the
/// next ready descriptor.
pub proof fn lemma_end_of_stream_closes(state: ServerModel, fd: i32, would_block: bool, data: Seq<u8>)
    requires
        state.phase == (Phase::Reading { fd }),
    ensures
        ({
            let (closing, action) = spec_step(
                state,
                EventModel::Read { size: 0, would_block, data },
            );
            &&& action == ActionModel::Close { fd }
            &&& closing == ServerModel { phase: Phase::Closing { fd }, ..state }
            &&& spec_step(closing, EventModel::Done) == spec_advance(closing)
        }),
{
}

/// A request goes to the application only when bytes were read: the
/// action `Respond` answers no event but a read of one byte or more in
/// which a whole request stands, and it carries that request.
pub proof fn lemma_respond_only_to_data(state: ServerModel, event: EventModel)
    requires
        spec_step(state, event).1 is Respond,
    ensures
        state.phase is Reading,
        event matches EventModel::Read { size, data, .. } && size > 0 && spec_request(data) == Ok::<
            RequestModel,
            ParseError,
        >(spec_step(state, event).1->request),
{
}

/// A wait that found nothing ready calls the periodic callback: at once
/// where the periodic log is not due, and else as soon as the log has been
/// written. After the callback the loop waits again.
pub proof fn lemma_idle_wait_calls_periodic(state: ServerModel, descriptors: Seq<i32>, now: u64)
    requires
        state.phase == Phase::Waiting,
    ensures
        ({
            let (next, action) = spec_step(
                state,
                EventModel::Ready { count: 0, descriptors, now },
            );
            let (idle, periodic) = if spec_log_due(state, now) {
                spec_step(next, EventModel::Done)
            } else {
                (next, action)
            };
            &&& spec_log_due(state, now) ==> action is Log
            &&& periodic == ActionModel::Periodic
            &&& idle.phase == Phase::Idle
            &&& spec_step(idle, EventModel::Done) == spec_wait(idle)
        }),
{
}

/// Only the periodic log moves its own clock: a step leaves the time of
/// the last log as it is unless it writes the log, and it never changes
/// the interval or the counters.
pub proof fn lemma_step_keeps_clock(state: ServerModel, event: EventModel)
    ensures
        ({
            let (next, action) = spec_step(state, event);
            &&& next.periodic_log_interval == state.periodic_log_interval
            &&& next.server_metrics == state.server_metrics
            &&& next.port == state.port
            &&& !(action is Log) ==> next.last_periodic_log_instant
                == state.last_periodic_log_instant
        }),
{
}

/// The periodic log is written once per interval, not once per wait. A
/// wait writes the log exactly if the interval has passed since the last
/// log. Once a wait at `now` has written it, a wait at a later time writes
/// it again exactly if the interval has passed since `now`.
pub proof fn lemma_log_once_per_interval(
    state: ServerModel,
    count: i32,
    descriptors: Seq<i32>,
    now: u64,
    later_state: ServerModel,
    later_count: i32,
    later_descriptors: Seq<i32>,
    later: u64,
)
    requires
        state.phase == Phase::Waiting,
        later_state.phase == Phase::Waiting,
        now <= later,
        later_state.periodic_log_interval == state.periodic_log_interval,
        later_state.last_periodic_log_instant == spec_step(
            state,
            EventModel::Ready { count, descriptors, now },
        ).0.last_periodic_log_instant,
    ensures
        ({
            let first = spec_step(state, EventModel::Ready { count, descriptors, now });
            let second = spec_step(
                later_state,
                EventModel::Ready {
                    count: later_count,
                    descriptors: later_descriptors,
                    now: later,
                },
            );
            &&& first.1 is Log <==> spec_log_due(state, now)
            &&& first.1 is Log ==> first.0.last_periodic_log_instant == now
            &&& first.1 is Log ==> (second.1 is Log <==> later - now
                >= state.periodic_log_interval)
        }),
{
}

} // verus!
