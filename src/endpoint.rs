//! The decisions of one end of the channel. An endpoint is driven by its
//! owner: the owner performs the action the endpoint asks for (open this
//! role's end of the pipe, create the node, write a frame, read), reports
//! what happened as an event, and receives the next action, until the
//! endpoint answers `Ready` or `Fail`.

use vstd::prelude::*;

verus! {

/// The wait before a sender tries again to open a pipe that has no reader.
pub const BACKOFF_MS: u64 = 50;

/// The permission bits of a newly created pipe node (before the umask).
pub const NODE_MODE: u32 = 0o666;

/// Which end of the pipe an endpoint owns.
#[derive(Clone, Copy, Debug, PartialEq, Eq, Structural)]
pub enum Role {
    Sender,
    Receiver,
}

/// What kind of failure an operating system call reported.
#[derive(Clone, Copy, Debug, PartialEq, Eq, Structural)]
pub enum ErrorClass {
    /// The write end was opened while nobody holds the read end.
    NoReceiver,
    /// No node exists at the path.
    MissingNode,
    /// A node already exists at the path (another endpoint created it first).
    NodeExists,
    /// The read end was closed under a write.
    BrokenPipe,
    /// The stream ended before a read was complete.
    StreamClosed,
    /// Any other failure.
    Other,
}

/// What the owner observed after performing an action.
#[derive(Clone, Copy, Debug, PartialEq, Eq, Structural)]
pub enum Event {
    Opened,
    OpenFailed(ErrorClass),
    NodeCreated,
    CreateFailed(ErrorClass),
    Transferred,
    TransferFailed(ErrorClass),
}

/// What the endpoint asks its owner to do next.
#[derive(Clone, Copy, Debug, PartialEq, Eq, Structural)]
pub enum Action {
    /// Open this role's end of the pipe after waiting `delay_ms` milliseconds.
    Open { delay_ms: u64 },
    /// Create the pipe node at the path.
    CreateNode,
    /// Write the pending frame in one attempt.
    WriteFrame,
    /// Read a whole frame header.
    ReadHeader,
    /// Read the whole payload that the header declared.
    ReadPayload,
    /// The operation is complete.
    Ready,
    /// The operation failed; the last reported error is final.
    Fail,
}

/// Where an endpoint stands.
#[derive(Clone, Copy, Debug, PartialEq, Eq, Structural)]
pub enum Phase {
    Closed,
    Opening,
    Creating,
    Idle,
    Writing,
    ReadingHeader,
    ReadingPayload,
    Failed,
}

/// The state of one end of the channel. `resume` records, while the end is
/// being opened again, that an interrupted transfer starts over afterwards.
#[derive(Clone, Copy, Debug, PartialEq, Eq, Structural)]
pub struct Endpoint {
    pub role: Role,
    pub phase: Phase,
    pub resume: bool,
}

/// The phase, and the action, that start a transfer of the given role:
/// a sender writes its frame, a receiver reads a header.
pub open spec fn transfer_of(role: Role) -> (Phase, Action) {
    match role {
        Role::Sender => (Phase::Writing, Action::WriteFrame),
        Role::Receiver => (Phase::ReadingHeader, Action::ReadHeader),
    }
}

/// The well-formed states: only a sender writes and only a receiver reads,
/// and a transfer is resumed only from the phases that reopen the end.
pub open spec fn wf(e: Endpoint) -> bool {
    &&& e.phase is Writing ==> e.role is Sender
    &&& (e.phase is ReadingHeader || e.phase is ReadingPayload) ==> e.role is Receiver
    &&& e.resume ==> (e.phase is Opening || e.phase is Creating)
}

/// The endpoint `e` with phase `p`, `resume` unchanged.
pub open spec fn with_phase(e: Endpoint, p: Phase) -> Endpoint {
    Endpoint { phase: p, ..e }
}

/// Failure: the endpoint stops in `Failed`.
pub open spec fn failing(e: Endpoint) -> (Endpoint, Action) {
    (Endpoint { role: e.role, phase: Phase::Failed, resume: false }, Action::Fail)
}

/// Opening the end again from the start, with no delay; `resume` says
/// whether a transfer follows.
pub open spec fn reopening(e: Endpoint, resume: bool) -> (Endpoint, Action) {
    (Endpoint { role: e.role, phase: Phase::Opening, resume }, Action::Open { delay_ms: 0 })
}

/// How an endpoint in phase `Opening` reacts to the outcome of an open:
/// once open it resumes its transfer or is ready; a sender whose pipe has
/// no reader waits and tries again; a missing node is created; anything
/// else is fatal.
pub open spec fn on_open(e: Endpoint, ev: Event) -> (Endpoint, Action) {
    match ev {
        Event::Opened => if e.resume {
            (Endpoint { role: e.role, phase: transfer_of(e.role).0, resume: false }, transfer_of(e.role).1)
        } else {
            (Endpoint { role: e.role, phase: Phase::Idle, resume: false }, Action::Ready)
        },
        Event::OpenFailed(ErrorClass::NoReceiver) if e.role is Sender =>
            (e, Action::Open { delay_ms: BACKOFF_MS }),
        Event::OpenFailed(ErrorClass::MissingNode) =>
            (with_phase(e, Phase::Creating), Action::CreateNode),
        _ => failing(e),
    }
}

/// How an endpoint in phase `Creating` reacts: a node that is there now,
/// made by this endpoint or by another, is opened at once; any other
/// failure to create it is fatal.
pub open spec fn on_create(e: Endpoint, ev: Event) -> (Endpoint, Action) {
    match ev {
        Event::NodeCreated | Event::CreateFailed(ErrorClass::NodeExists) => reopening(e, e.resume),
        _ => failing(e),
    }
}

/// How a transfer reacts. A written frame, or a read payload, completes
/// the operation, and a read header leads to reading the payload. A
/// broken pipe under a write, or a stream that ends inside a header,
/// reopens the end and starts the transfer over. Anything else is fatal;
/// in particular nothing that happens while a payload is read is retried.
pub open spec fn on_transfer(e: Endpoint, ev: Event) -> (Endpoint, Action) {
    match (e.phase, ev) {
        (Phase::Writing, Event::Transferred) | (Phase::ReadingPayload, Event::Transferred) =>
            (with_phase(e, Phase::Idle), Action::Ready),
        (Phase::ReadingHeader, Event::Transferred) =>
            (with_phase(e, Phase::ReadingPayload), Action::ReadPayload),
        (Phase::Writing, Event::TransferFailed(ErrorClass::BrokenPipe)) => reopening(e, true),
        (Phase::ReadingHeader, Event::TransferFailed(ErrorClass::StreamClosed)) => reopening(e, true),
        _ => failing(e),
    }
}

/// The next state and action of `e` after event `ev`. An event that the
/// phase does not wait for is fatal.
pub open spec fn next(e: Endpoint, ev: Event) -> (Endpoint, Action) {
    match e.phase {
        Phase::Opening => on_open(e, ev),
        Phase::Creating => on_create(e, ev),
        Phase::Writing | Phase::ReadingHeader | Phase::ReadingPayload => on_transfer(e, ev),
        _ => failing(e),
    }
}

/// The state and first action of a new operation. A closed end is opened
/// and an open one starts a transfer. An operation that was abandoned
/// midway starts over: an interrupted reopen is taken up again with the
/// transfer after it, and an interrupted write or header read is done
/// afresh. A payload read cannot be resumed, so an operation abandoned
/// there fails, and a failed endpoint stays failed.
pub open spec fn began(e: Endpoint) -> (Endpoint, Action) {
    match e.phase {
        Phase::Closed => reopening(e, false),
        Phase::Opening | Phase::Creating => reopening(e, true),
        Phase::Idle | Phase::Writing | Phase::ReadingHeader => (
            Endpoint { role: e.role, phase: transfer_of(e.role).0, resume: false },
            transfer_of(e.role).1,
        ),
        _ => failing(e),
    }
}

impl Endpoint {
    /// A closed endpoint of the given role.
    pub fn new(role: Role) -> (r: Endpoint)
        ensures
            r == (Endpoint { role, phase: Phase::Closed, resume: false }),
            wf(r),
    {
        Endpoint { role, phase: Phase::Closed, resume: false }
    }

    /// Begins an operation: opening a closed end, or a transfer on an open one.
    pub fn begin(&mut self) -> (r: Action)
        ensures
            (*final(self), r) == began(*old(self)),
            wf(*old(self)) ==> wf(*final(self)),
    {
        match self.phase {
            Phase::Closed => self.reopen(false),
            Phase::Opening | Phase::Creating => self.reopen(true),
            Phase::Idle | Phase::Writing | Phase::ReadingHeader => {
                self.resume = false;
                match self.role {
                    Role::Sender => {
                        self.phase = Phase::Writing;
                        Action::WriteFrame
                    },
                    Role::Receiver => {
                        self.phase = Phase::ReadingHeader;
                        Action::ReadHeader
                    },
                }
            },
            _ => self.fail(),
        }
    }

    fn fail(&mut self) -> (r: Action)
        ensures
            (*final(self), r) == failing(*old(self)),
    {
        self.phase = Phase::Failed;
        self.resume = false;
        Action::Fail
    }

    fn reopen(&mut self, resume: bool) -> (r: Action)
        ensures
            (*final(self), r) == reopening(*old(self), resume),
    {
        self.phase = Phase::Opening;
        self.resume = resume;
        Action::Open { delay_ms: 0 }
    }

    /// Takes the outcome of the last action and returns the next one.
    pub fn step(&mut self, ev: Event) -> (r: Action)
        ensures
            (*final(self), r) == next(*old(self), ev),
            wf(*old(self)) ==> wf(*final(self)),
    {
        match self.phase {
            Phase::Opening => match ev {
                Event::Opened => {
                    if self.resume {
                        self.resume = false;
                        match self.role {
                            Role::Sender => {
                                self.phase = Phase::Writing;
                                Action::WriteFrame
                            },
                            Role::Receiver => {
                                self.phase = Phase::ReadingHeader;
                                Action::ReadHeader
                            },
                        }
                    } else {
                        self.phase = Phase::Idle;
                        Action::Ready
                    }
                },
                Event::OpenFailed(ErrorClass::NoReceiver) if self.role == Role::Sender => {
                    Action::Open { delay_ms: BACKOFF_MS }
                },
                Event::OpenFailed(ErrorClass::MissingNode) => {
                    self.phase = Phase::Creating;
                    Action::CreateNode
                },
                _ => self.fail(),
            },
            Phase::Creating => match ev {
                Event::NodeCreated | Event::CreateFailed(ErrorClass::NodeExists) => {
                    let resume = self.resume;
                    self.reopen(resume)
                },
                _ => self.fail(),
            },
            Phase::Writing => match ev {
                Event::Transferred => {
                    self.phase = Phase::Idle;
                    Action::Ready
                },
                Event::TransferFailed(ErrorClass::BrokenPipe) => self.reopen(true),
                _ => self.fail(),
            },
            Phase::ReadingHeader => match ev {
                Event::Transferred => {
                    self.phase = Phase::ReadingPayload;
                    Action::ReadPayload
                },
                Event::TransferFailed(ErrorClass::StreamClosed) => self.reopen(true),
                _ => self.fail(),
            },
            Phase::ReadingPayload => match ev {
                Event::Transferred => {
                    self.phase = Phase::Idle;
                    Action::Ready
                },
                _ => self.fail(),
            },
            _ => self.fail(),
        }
    }
}

} // verus!
