//! The lifecycle coordinator: starting, stopping, pausing and resuming the
//! capture loop from the control thread.
//!
//! A pause is a full stop, and a resume is a full stop followed by a new
//! start. The capture thread is never suspended, so nothing it installed
//! outlives a pause.

use vstd::prelude::*;

verus! {

/// Thread message by which the capture loop reports that it has stopped.
pub const STATUS_CAPTURE_STOPPED: u32 = 0x8002;

/// Thread message by which the capture loop reports that it runs.
pub const STATUS_CAPTURE_STARTED: u32 = 0x8003;

/// Thread message by which the filter worker reports that it has stopped.
pub const STATUS_HOOK_STOPPED: u32 = 0x8004;

/// Thread message by which the filter worker reports that it is active.
pub const STATUS_HOOK_STARTED: u32 = 0x8005;

/// A status notification posted between the threads.
#[derive(Clone, Copy, Debug, PartialEq, Eq, Structural)]
pub enum Status {
    CaptureStopped,
    CaptureStarted,
    HookStopped,
    HookStarted,
}

impl Status {
    /// The thread message that carries the status.
    pub open spec fn code_of(self) -> u32 {
        match self {
            Status::CaptureStopped => STATUS_CAPTURE_STOPPED,
            Status::CaptureStarted => STATUS_CAPTURE_STARTED,
            Status::HookStopped => STATUS_HOOK_STOPPED,
            Status::HookStarted => STATUS_HOOK_STARTED,
        }
    }

    /// The status that a thread message carries, if it carries one.
    pub open spec fn decoded(message: u32) -> Option<Status> {
        if message == STATUS_CAPTURE_STOPPED {
            Some(Status::CaptureStopped)
        } else if message == STATUS_CAPTURE_STARTED {
            Some(Status::CaptureStarted)
        } else if message == STATUS_HOOK_STOPPED {
            Some(Status::HookStopped)
        } else if message == STATUS_HOOK_STARTED {
            Some(Status::HookStarted)
        } else {
            None
        }
    }

    /// The thread message that carries the status.
    pub fn code(&self) -> (message: u32)
        ensures
            message == self.code_of(),
            Status::decoded(message) == Some(*self),
    {
        match self {
            Status::CaptureStopped => STATUS_CAPTURE_STOPPED,
            Status::CaptureStarted => STATUS_CAPTURE_STARTED,
            Status::HookStopped => STATUS_HOOK_STOPPED,
            Status::HookStarted => STATUS_HOOK_STARTED,
        }
    }

    /// Reads a thread message as a status notification.
    pub fn decode(message: u32) -> (status: Option<Status>)
        ensures
            status == Status::decoded(message),
            status matches Some(found) ==> found.code_of() == message,
    {
        if message == STATUS_CAPTURE_STOPPED {
            Some(Status::CaptureStopped)
        } else if message == STATUS_CAPTURE_STARTED {
            Some(Status::CaptureStarted)
        } else if message == STATUS_HOOK_STOPPED {
            Some(Status::HookStopped)
        } else if message == STATUS_HOOK_STARTED {
            Some(Status::HookStarted)
        } else {
            None
        }
    }
}

/// A request from the user interface while the program runs.
#[derive(Clone, Copy, Debug, PartialEq, Eq, Structural)]
pub enum Request {
    /// Stop the capture loop.
    Stop,
    /// Stop the capture loop and leave it stopped until asked otherwise.
    Pause,
    /// Start the capture loop, after stopping the one that runs.
    Resume,
}

/// What the control thread has to do for a request.
#[derive(Clone, Copy, Debug, PartialEq, Eq, Structural)]
pub enum Directive {
    /// Nothing.
    Nothing,
    /// Post the signal to stop to the queue of this thread.
    SignalQuit { thread_id: u32 },
    /// Start a capture thread and report the outcome. Where `must_succeed`
    /// holds, a failure ends the program.
    Spawn { must_succeed: bool },
}

/// What the control thread has to do once the capture loop has stopped.
#[derive(Clone, Copy, Debug, PartialEq, Eq, Structural)]
pub struct Stopped {
    /// The thread handle to close, where one was held.
    pub released: Option<usize>,
    /// Whether to start a new capture thread at once.
    pub restart: bool,
}

/// The state that the control thread and the start of a capture thread
/// share.
#[derive(Clone, Copy, Debug, PartialEq, Eq, Structural)]
pub struct ThreadHandleSet {
    pub main_thread_id: u32,
    pub capture_thread_id: u32,
    /// Handle of the capture thread; `None` while none runs.
    pub capture_handle: Option<usize>,
    /// Whether a new capture thread is to follow the one that is stopping.
    pub restart_pending: bool,
}

impl ThreadHandleSet {
    /// Whether a capture thread runs, as far as the coordinator knows.
    pub open spec fn running(self) -> bool {
        self.capture_handle is Some
    }

    /// The state before any capture thread was started.
    pub open spec fn initial(main_thread_id: u32) -> ThreadHandleSet {
        ThreadHandleSet {
            main_thread_id,
            capture_thread_id: 0,
            capture_handle: None,
            restart_pending: false,
        }
    }

    /// State and directive after `request`.
    ///
    /// While a capture thread runs, every request signals it to stop and
    /// writes the flag: a resume sets it, the others clear it. While none
    /// runs, a resume starts one and the others do nothing.
    pub open spec fn after(self, request: Request) -> (ThreadHandleSet, Directive) {
        if self.running() {
            (
                ThreadHandleSet { restart_pending: request == Request::Resume, ..self },
                Directive::SignalQuit { thread_id: self.capture_thread_id },
            )
        } else if request == Request::Resume {
            (
                ThreadHandleSet { restart_pending: false, ..self },
                Directive::Spawn { must_succeed: true },
            )
        } else {
            (self, Directive::Nothing)
        }
    }

    /// The state after each of `requests` in turn.
    pub open spec fn after_all(self, requests: Seq<Request>) -> ThreadHandleSet
        decreases requests.len(),
    {
        if requests.len() == 0 {
            self
        } else {
            self.after_all(requests.drop_last()).after(requests.last()).0
        }
    }

    /// State and instructions after the capture loop has reported its stop:
    /// the handle is given up, and a pending restart is taken up and
    /// forgotten.
    pub open spec fn after_stopped(self) -> (ThreadHandleSet, Stopped) {
        (
            ThreadHandleSet { capture_handle: None, restart_pending: false, ..self },
            Stopped { released: self.capture_handle, restart: self.restart_pending },
        )
    }

    /// The state after an attempt to start a capture thread that gave
    /// `handle` and `thread_id`; a zero handle stands for a failure and
    /// changes nothing.
    pub open spec fn after_spawn(self, handle: usize, thread_id: u32) -> ThreadHandleSet {
        if handle == 0 {
            self
        } else {
            ThreadHandleSet {
                capture_thread_id: thread_id,
                capture_handle: Some(handle),
                ..self
            }
        }
    }

    /// Makes the state for the control thread `main_thread_id`.
    pub fn new(main_thread_id: u32) -> (set: ThreadHandleSet)
        ensures
            set == ThreadHandleSet::initial(main_thread_id),
            !set.running(),
    {
        ThreadHandleSet {
            main_thread_id,
            capture_thread_id: 0,
            capture_handle: None,
            restart_pending: false,
        }
    }

    /// Whether a capture thread runs, as far as the coordinator knows.
    pub fn is_running(&self) -> (running: bool)
        ensures
            running == self.running(),
    {
        self.capture_handle.is_some()
    }

    /// Records the outcome of starting a capture thread and says whether it
    /// was started.
    pub fn started(&mut self, handle: usize, thread_id: u32) -> (ok: bool)
        ensures
            *final(self) == old(self).after_spawn(handle, thread_id),
            ok == (handle != 0),
            ok ==> final(self).running(),
    {
        if handle == 0 {
            false
        } else {
            self.capture_thread_id = thread_id;
            self.capture_handle = Some(handle);
            true
        }
    }

    /// Takes a request from the user interface.
    pub fn request(&mut self, request: Request) -> (directive: Directive)
        ensures
            (*final(self), directive) == old(self).after(request),
            final(self).capture_handle == old(self).capture_handle,
    {
        if self.capture_handle.is_some() {
            self.restart_pending = request == Request::Resume;
            Directive::SignalQuit { thread_id: self.capture_thread_id }
        } else if request == Request::Resume {
            self.restart_pending = false;
            Directive::Spawn { must_succeed: true }
        } else {
            Directive::Nothing
        }
    }

    /// Stops the capture loop.
    pub fn stop(&mut self) -> (directive: Directive)
        ensures
            (*final(self), directive) == old(self).after(Request::Stop),
    {
        self.request(Request::Stop)
    }

    /// Stops the capture loop without a restart to follow.
    pub fn pause(&mut self) -> (directive: Directive)
        ensures
            (*final(self), directive) == old(self).after(Request::Pause),
    {
        self.request(Request::Pause)
    }

    /// Starts the capture loop anew: at once where none runs, else as soon
    /// as the running one has stopped.
    pub fn resume(&mut self) -> (directive: Directive)
        ensures
            (*final(self), directive) == old(self).after(Request::Resume),
    {
        self.request(Request::Resume)
    }

    /// Takes the report that the capture loop has stopped.
    pub fn capture_stopped(&mut self) -> (ahead: Stopped)
        ensures
            (*final(self), ahead) == old(self).after_stopped(),
            !final(self).running(),
            !final(self).restart_pending,
    {
        let ahead = Stopped { released: self.capture_handle, restart: self.restart_pending };
        self.capture_handle = None;
        self.restart_pending = false;
        ahead
    }
}

/// However many requests arrive while a capture thread is stopping, the
/// last of them alone decides: the stop is followed by one restart where
/// it was a resume, and by none where it was not. The restart is taken up
/// once, so a further report of a stop starts nothing.
pub proof fn latest_request_decides(set: ThreadHandleSet, requests: Seq<Request>)
    requires
        set.running(),
        requests.len() > 0,
    ensures
        set.after_all(requests).running(),
        set.after_all(requests).capture_handle == set.capture_handle,
        set.after_all(requests).after_stopped().1.restart == (requests.last()
            == Request::Resume),
        !set.after_all(requests).after_stopped().0.after_stopped().1.restart,
    decreases requests.len(),
{
    if requests.len() > 1 {
        latest_request_decides(set, requests.drop_last());
    } else {
        assert(requests.drop_last().len() == 0);
        assert(set.after_all(requests.drop_last()) == set);
    }
}

/// A resume that arrives while a stop is under way gives exactly one
/// restart: the stop is followed by a restart, and the restart is not
/// repeated when a second report of a stop comes in.
pub proof fn resume_during_stop_restarts_once(set: ThreadHandleSet)
    requires
        set.running(),
    ensures
        ({
            let stopping = set.after(Request::Stop).0;
            let resumed = stopping.after(Request::Resume);
            let reported = resumed.0.after_stopped();
            &&& resumed.1 == Directive::SignalQuit { thread_id: set.capture_thread_id }
            &&& reported.1.restart
            &&& reported.1.released == set.capture_handle
            &&& !reported.0.after_stopped().1.restart
        }),
{
}

} // verus!
