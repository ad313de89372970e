//! The lifecycle of one spawned child process, kept as a small state machine.
//!
//! The host owns the operating-system resources (the process record and the
//! standard-input pipe) and reports what the OS said as an event; every
//! decision — whether an operation is allowed, what it returns, and how the
//! recorded state changes — is made here. The state moves from running to a
//! terminal exit exactly once and never leaves it.
use vstd::prelude::*;

verus! {

/// Why an operation on a process handle failed.
#[derive(Clone, Copy, Debug, PartialEq, Eq, Structural)]
pub enum ProcessError {
    /// The underlying OS call (spawn, read, write, wait, kill) failed.
    Io,
    /// The process had already finished.
    ProcessFinished,
    /// The command was empty, or the resource the operation needs (stdin
    /// pipe, OS process record) has already been released.
    InvalidState,
    /// A required pointer argument was null (foreign-call boundary only).
    NullPointer,
}

/// What a non-blocking status check of the OS process record reported.
#[derive(Clone, Copy, Debug, PartialEq, Eq, Structural)]
pub enum PollEvent {
    /// The process is still active.
    Running,
    /// The process has terminated, with an exit code if the OS supplied one.
    Exited(Option<i32>),
    /// The status check itself failed.
    CheckFailed,
}

/// What a blocking wait on the OS process record reported.
#[derive(Clone, Copy, Debug, PartialEq, Eq, Structural)]
pub enum ExitEvent {
    /// The process terminated, with an exit code if the OS supplied one.
    Finished(Option<i32>),
    /// The wait itself failed.
    WaitFailed,
}

/// What a single write attempt on the standard-input pipe reported.
#[derive(Clone, Copy, Debug, PartialEq, Eq, Structural)]
pub enum WriteEvent {
    /// The pipe accepted this many bytes (possibly fewer than offered).
    Accepted(usize),
    /// The write failed.
    WriteFailed,
}

/// The recorded state of one process handle.
///
/// `has_child` says whether the OS process record is still held;
/// `stdin_open` whether the write end of the standard-input pipe is;
/// `exit_code` is the terminal exit code once one has been observed.
#[derive(Clone, Copy, Debug, PartialEq, Eq, Structural)]
pub struct Lifecycle {
    pub has_child: bool,
    pub stdin_open: bool,
    pub exit_code: Option<i32>,
}

/// The state has reached a terminal exit: an exit code has been recorded.
pub open spec fn terminal(s: Lifecycle) -> bool {
    s.exit_code is Some
}

/// Nothing about the state can change any more without the caller's say-so:
/// either the exit code is recorded, or the OS process record is gone. A
/// settled state answers polls and waits on the spot, with no OS call.
pub open spec fn settled(s: Lifecycle) -> bool {
    !s.has_child || s.exit_code is Some
}

/// What polling the running state does: the next state and the answer.
pub open spec fn poll_spec(s: Lifecycle, ev: PollEvent) -> (Lifecycle, bool) {
    if s.exit_code is Some {
        (s, false)
    } else if !s.has_child {
        (s, false)
    } else {
        match ev {
            PollEvent::Running => (s, true),
            PollEvent::Exited(code) => (Lifecycle { exit_code: code, ..s }, false),
            PollEvent::CheckFailed => (s, false),
        }
    }
}

/// What waiting for exit does: the next state and the returned code or error.
pub open spec fn wait_spec(s: Lifecycle, ev: ExitEvent) -> (Lifecycle, Result<
    i32,
    ProcessError,
>) {
    match s.exit_code {
        Some(code) => (s, Ok(code)),
        None => if !s.has_child {
            (s, Err(ProcessError::InvalidState))
        } else {
            match ev {
            ExitEvent::Finished(reported) => {
                let code = match reported {
                    Some(c) => c,
                    None => -1i32,
                };
                (Lifecycle { exit_code: Some(code), ..s }, Ok(code))
            },
            ExitEvent::WaitFailed => (s, Err(ProcessError::Io)),
            }
        },
    }
}

/// What one write to standard input returns, given the pipe's answer.
pub open spec fn write_spec(s: Lifecycle, ev: WriteEvent) -> Result<usize, ProcessError> {
    if !s.stdin_open {
        Err(ProcessError::InvalidState)
    } else {
        match ev {
            WriteEvent::Accepted(n) => Ok(n),
            WriteEvent::WriteFailed => Err(ProcessError::Io),
        }
    }
}

/// What closing the handle does. Closing first releases the standard-input
/// pipe, then polls; only if the process is still running is it killed and
/// waited for (`kill_ev`), the resulting exit code being recorded (-1 where
/// the OS supplies none, as waiting records it) and the OS record released
/// either way.
pub open spec fn close_spec(s: Lifecycle, poll_ev: PollEvent, kill_ev: ExitEvent) -> (
    Lifecycle,
    Result<(), ProcessError>,
) {
    let no_stdin = Lifecycle { stdin_open: false, ..s };
    let (polled, running) = poll_spec(no_stdin, poll_ev);
    if running {
        match kill_ev {
            ExitEvent::Finished(reported) => {
                let code = match reported {
                    Some(c) => c,
                    None => -1i32,
                };
                (Lifecycle { has_child: false, exit_code: Some(code), ..polled }, Ok(()))
            },
            ExitEvent::WaitFailed => (Lifecycle { has_child: false, ..polled }, Err(
                ProcessError::Io,
            )),
        }
    } else {
        (polled, Ok(()))
    }
}

impl Lifecycle {
    /// The state of a handle whose spawn request the OS has answered: a fresh
    /// running handle on success, an I/O error (and no handle) on failure.
    pub fn after_spawn(spawned: bool) -> (r: Result<Lifecycle, ProcessError>)
        ensures
            spawned ==> r == Ok::<_, ProcessError>(
                Lifecycle { has_child: true, stdin_open: true, exit_code: None },
            ),
            !spawned ==> r == Err::<Lifecycle, _>(ProcessError::Io),
    {
        if spawned {
            Ok(Lifecycle { has_child: true, stdin_open: true, exit_code: None })
        } else {
            Err(ProcessError::Io)
        }
    }

    /// Decides a poll without consulting the OS where that is possible: once
    /// an exit code is recorded, or once the process record is gone, the
    /// process is not running and the OS is not to be queried again.
    pub fn poll_precheck(&self) -> (r: Option<bool>)
        ensures
            settled(*self) ==> r == Some(false),
            !settled(*self) ==> (r is None),
    {
        if self.exit_code.is_some() {
            Some(false)
        } else if !self.has_child {
            Some(false)
        } else {
            None
        }
    }

    /// Applies what the OS status check reported: an observed exit is
    /// recorded once and for all; a still-active process, or a failed check,
    /// leaves the state as it was (a failed check conservatively reports
    /// not-running).
    pub fn poll_apply(&mut self, ev: PollEvent) -> (running: bool)
        requires
            !settled(*old(self)),
        ensures
            (*final(self), running) == poll_spec(*old(self), ev),
    {
        match ev {
            PollEvent::Running => true,
            PollEvent::Exited(code) => {
                self.exit_code = code;
                false
            },
            PollEvent::CheckFailed => false,
        }
    }

    /// Decides a wait without consulting the OS where that is possible: a
    /// recorded exit code is returned as is, and a handle whose process
    /// record is gone fails with `InvalidState`.
    pub fn wait_precheck(&self) -> (r: Option<Result<i32, ProcessError>>)
        ensures
            self.exit_code matches Some(code) ==> r == Some(Ok::<_, ProcessError>(code)),
            self.exit_code is None && !self.has_child ==> r == Some(
                Err::<i32, _>(ProcessError::InvalidState),
            ),
            (self.exit_code is None && self.has_child) ==> (r is None),
    {
        match self.exit_code {
            Some(code) => Some(Ok(code)),
            None => {
                if !self.has_child {
                    Some(Err(ProcessError::InvalidState))
                } else {
                    None
                }
            },
        }
    }

    /// Applies what the blocking OS wait reported: the exit code (or -1 where
    /// the OS supplied none, e.g. on a signal) is recorded and returned; a
    /// failed wait changes nothing and surfaces as an I/O error.
    pub fn wait_apply(&mut self, ev: ExitEvent) -> (r: Result<i32, ProcessError>)
        requires
            old(self).exit_code is None,
            old(self).has_child,
        ensures
            (*final(self), r) == wait_spec(*old(self), ev),
    {
        match ev {
            ExitEvent::Finished(reported) => {
                let code = match reported {
                    Some(c) => c,
                    None => -1,
                };
                self.exit_code = Some(code);
                Ok(code)
            },
            ExitEvent::WaitFailed => Err(ProcessError::Io),
        }
    }

    /// Whether a write to standard input may proceed; after a close it may
    /// not, and the operation fails with `InvalidState` without touching the
    /// pipe.
    pub fn write_precheck(&self) -> (r: Option<Result<usize, ProcessError>>)
        ensures
            self.stdin_open ==> (r is None),
            !self.stdin_open ==> r == Some(Err::<usize, _>(ProcessError::InvalidState)),
    {
        if self.stdin_open {
            None
        } else {
            Some(Err(ProcessError::InvalidState))
        }
    }

    /// What the finished write attempt returns: the count of bytes the pipe
    /// accepted, or an I/O error. The recorded state does not change.
    pub fn write_apply(&self, ev: WriteEvent) -> (r: Result<usize, ProcessError>)
        requires
            self.stdin_open,
        ensures
            r == write_spec(*self, ev),
    {
        match ev {
            WriteEvent::Accepted(n) => Ok(n),
            WriteEvent::WriteFailed => Err(ProcessError::Io),
        }
    }

    /// First step of closing: the standard-input pipe is released
    /// unconditionally, so a reader at its far end observes end-of-stream.
    pub fn close_begin(&mut self)
        ensures
            *final(self) == (Lifecycle { stdin_open: false, ..*old(self) }),
    {
        self.stdin_open = false;
    }

    /// Last step of closing a process that was still running: the OS record
    /// has been taken, the process killed and waited for, and the resulting
    /// exit code recorded — -1 where the OS supplied none, exactly as a wait
    /// records it — so the handle ends terminal. A failed wait surfaces as
    /// an I/O error, the record being gone either way.
    pub fn close_finish(&mut self, ev: ExitEvent) -> (r: Result<(), ProcessError>)
        requires
            old(self).exit_code is None,
            old(self).has_child,
            !old(self).stdin_open,
        ensures
            (*final(self), r) == close_spec(*old(self), PollEvent::Running, ev),
    {
        self.has_child = false;
        match ev {
            ExitEvent::Finished(reported) => {
                let code = match reported {
                    Some(c) => c,
                    None => -1,
                };
                self.exit_code = Some(code);
                Ok(())
            },
            ExitEvent::WaitFailed => Err(ProcessError::Io),
        }
    }
}

/// Waiting is idempotent: once a wait has returned an exit code, every later
/// wait returns the same code and leaves the state untouched, whatever the
/// OS would have said.
pub proof fn lemma_wait_idempotent(s: Lifecycle, first: ExitEvent, second: ExitEvent)
    ensures
        (wait_spec(s, first).1 matches Ok(code) ==> wait_spec(wait_spec(s, first).0, second)
            == (wait_spec(s, first).0, Ok::<i32, ProcessError>(code))),
{
}

/// A terminal state is never left: no poll, wait or close changes a recorded
/// exit code.
pub proof fn lemma_terminal_stable(
    s: Lifecycle,
    poll_ev: PollEvent,
    exit_ev: ExitEvent,
    kill_ev: ExitEvent,
)
    requires
        terminal(s),
    ensures
        poll_spec(s, poll_ev).0.exit_code == s.exit_code,
        wait_spec(s, exit_ev).0.exit_code == s.exit_code,
        close_spec(s, poll_ev, kill_ev).0.exit_code == s.exit_code,
{
}

/// A closed handle is settled, provided the status check made while closing
/// answered (still running, or exited with a code the OS supplied): polling
/// it reports not-running, and a wait is decided on the spot — it returns
/// the recorded exit code, or fails with `InvalidState`, and never has to
/// block on the OS. A close that found the process running and reaped its
/// kill moreover always ends terminal: the resulting code is recorded.
pub proof fn lemma_close_settles(
    s: Lifecycle,
    poll_ev: PollEvent,
    kill_ev: ExitEvent,
    later_poll: PollEvent,
    later_exit: ExitEvent,
)
    requires
        (settled(s) || poll_ev matches PollEvent::Running || (poll_ev
            matches PollEvent::Exited(code) && code is Some)),
    ensures
        settled(close_spec(s, poll_ev, kill_ev).0),
        (poll_spec(Lifecycle { stdin_open: false, ..s }, poll_ev).1 && kill_ev
            matches ExitEvent::Finished(_)) ==> terminal(close_spec(s, poll_ev, kill_ev).0),
        poll_spec(close_spec(s, poll_ev, kill_ev).0, later_poll).1 == false,
        ({
            let closed = close_spec(s, poll_ev, kill_ev).0;
            wait_spec(closed, later_exit) == (
                closed,
                match closed.exit_code {
                    Some(code) => Ok::<i32, ProcessError>(code),
                    None => Err::<i32, ProcessError>(ProcessError::InvalidState),
                },
            )
        }),
{
}

/// Polling a settled state reports not-running and changes nothing, whatever
/// the OS would have said.
pub proof fn lemma_settled_not_running(s: Lifecycle, ev: PollEvent)
    requires
        settled(s),
    ensures
        poll_spec(s, ev) == (s, false),
{
}

} // verus!
