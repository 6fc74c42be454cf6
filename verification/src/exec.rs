//! Running a spawned binary: the exit code a run ends with, and the exit code a spawned
//! process reports once it is known.

use vstd::prelude::*;

use crate::runtime::{SpawnType, WasiThreadError};
use crate::vbus::{BusResult, VirtualBusError};
use crate::wasi_types::WASI_ENOEXEC;

verus! {

/// The exit code reported when a run ends in a trap or in an error that is not a WASI exit.
pub const UNKNOWN_FAILURE_EXIT_CODE: u32 = 9999;

/// How calling an exported function of a process failed.
#[derive(Debug, Clone, Copy, PartialEq, Eq, Structural)]
pub enum CallFailure {
    /// The process asked to exit with this code.
    Exit(u32),
    /// The process uses a WASI version the runtime does not know.
    UnknownWasiVersion,
    /// Any other runtime error (a trap).
    Runtime,
}

/// The exit code a failed call ends the process with.
pub open spec fn spec_failure_exit_code(f: CallFailure) -> u32 {
    match f {
        CallFailure::Exit(code) => code,
        CallFailure::UnknownWasiVersion => WASI_ENOEXEC as u32,
        CallFailure::Runtime => UNKNOWN_FAILURE_EXIT_CODE,
    }
}

/// The exit code a failed call ends the process with.
pub fn failure_exit_code(f: CallFailure) -> (r: u32)
    ensures
        r == spec_failure_exit_code(f),
        f matches CallFailure::Exit(c) ==> r == c,
{
    match f {
        CallFailure::Exit(code) => code,
        CallFailure::UnknownWasiVersion => WASI_ENOEXEC as u32,
        CallFailure::Runtime => UNKNOWN_FAILURE_EXIT_CODE,
    }
}

/// Whether the run stops after `_initialize`: `initialize` is `None` when the module exports
/// no `_initialize`, else the outcome of calling it. A failure stops the run with its exit code.
pub fn exit_code_after_initialize(initialize: Option<Result<(), CallFailure>>) -> (r: Option<u32>)
    ensures
        match initialize {
            Some(Err(f)) => r == Some(spec_failure_exit_code(f)),
            _ => r is None,
        },
        initialize matches Some(Err(CallFailure::Exit(c))) ==> r == Some(c),
{
    match initialize {
        Some(Err(f)) => Some(failure_exit_code(f)),
        _ => None,
    }
}

/// The exit code of a run after `_start`: `start` is `None` when the module exports no
/// `_start` (the binary cannot be executed), else the outcome of calling it. A normal
/// return is exit code zero.
pub fn exit_code_after_start(start: Option<Result<(), CallFailure>>) -> (r: u32)
    ensures
        r == match start {
            None => WASI_ENOEXEC as u32,
            Some(Ok(())) => 0,
            Some(Err(f)) => spec_failure_exit_code(f),
        },
        start matches Some(Err(CallFailure::Exit(c))) ==> r == c,
{
    match start {
        None => WASI_ENOEXEC as u32,
        Some(Ok(())) => 0,
        Some(Err(f)) => failure_exit_code(f),
    }
}

/// How the memory of a spawned process is provided: a module that imports a memory gets
/// one created with the imported type; any other module creates its own.
pub fn memory_spawn_type<M, V>(imported_memory: Option<M>) -> (r: SpawnType<M, V>)
    ensures
        match imported_memory {
            Some(ty) => r == SpawnType::<M, V>::CreateWithType(ty),
            None => r is Create,
        },
{
    match imported_memory {
        Some(ty) => SpawnType::CreateWithType(ty),
        None => SpawnType::Create,
    }
}

/// What the channel carrying the exit code of a spawned process gave when it was asked.
#[derive(Debug, Clone, Copy, PartialEq, Eq, Structural)]
pub enum ExitCodeReceive {
    /// The process sent its exit code.
    Received(u32),
    /// The process went away without sending one.
    Disconnected,
    /// Nothing has been sent yet.
    Empty,
}

/// What polling the channel carrying the exit code of a spawned process gave.
#[derive(Debug, Clone, Copy, PartialEq, Eq, Structural)]
pub enum ExitCodePoll {
    /// The channel yielded: the exit code sent, or `None` when the process went away
    /// without sending one.
    Ready(Option<u32>),
    /// Nothing has arrived yet.
    Pending,
}

/// The exit code of a spawned process, once known.
#[derive(Debug)]
pub struct SpawnedProcess {
    exit_code: Option<u32>,
}

/// The exit code known after the channel answered `recv`, given the code known before.
pub open spec fn spec_exit_code_after(known: Option<u32>, recv: ExitCodeReceive) -> Option<u32> {
    match known {
        Some(c) => Some(c),
        None => match recv {
            ExitCodeReceive::Received(c) => Some(c),
            ExitCodeReceive::Disconnected => Some(UNKNOWN_FAILURE_EXIT_CODE),
            ExitCodeReceive::Empty => None,
        },
    }
}

impl SpawnedProcess {
    /// The exit code known so far.
    pub closed spec fn spec_exit_code(&self) -> Option<u32> {
        self.exit_code
    }

    /// A process whose exit code is not known yet.
    pub fn new() -> (r: Self)
        ensures
            r.spec_exit_code() is None,
    {
        SpawnedProcess { exit_code: None }
    }

    /// The exit code known so far, without asking the channel.
    pub fn known_exit_code(&self) -> (r: Option<u32>)
        ensures
            r == self.spec_exit_code(),
    {
        self.exit_code
    }

    /// The exit code, once the channel has answered `recv`: a known code is kept; otherwise a
    /// received code is taken, a closed channel means the unknown-failure code, and an empty
    /// channel means the process is still running.
    pub fn exit_code(&mut self, recv: ExitCodeReceive) -> (r: Option<u32>)
        ensures
            r == spec_exit_code_after(old(self).spec_exit_code(), recv),
            final(self).spec_exit_code() == r,
    {
        if let Some(code) = self.exit_code {
            return Some(code);
        }
        match recv {
            ExitCodeReceive::Received(code) => {
                self.exit_code = Some(code);
                Some(code)
            },
            ExitCodeReceive::Disconnected => {
                self.exit_code = Some(UNKNOWN_FAILURE_EXIT_CODE);
                Some(UNKNOWN_FAILURE_EXIT_CODE)
            },
            ExitCodeReceive::Empty => None,
        }
    }

    /// Whether the process is ready to receive commands: it is, from the moment it has been
    /// launched, which is when it is made.
    pub fn poll_ready(&self) -> (r: bool)
        ensures
            r,
    {
        true
    }

    /// What polling the exit-code channel gives and leaves: a known code means finished; else
    /// a channel that yielded records its code (the unknown-failure code when it closed
    /// without one) and means finished; a channel with nothing yet means still running.
    pub open spec fn poll_finished_post(self, after: Self, poll: ExitCodePoll, r: bool) -> bool {
        match self.spec_exit_code() {
            Some(_) => r && after == self,
            None => match poll {
                ExitCodePoll::Ready(code) => r && after.spec_exit_code() == Some(
                    match code {
                        Some(c) => c,
                        None => UNKNOWN_FAILURE_EXIT_CODE,
                    },
                ),
                ExitCodePoll::Pending => !r && after == self,
            },
        }
    }

    /// Whether the process has finished, given what polling its exit-code channel gave.
    pub fn poll_finished(&mut self, poll: ExitCodePoll) -> (r: bool)
        ensures
            old(self).poll_finished_post(*final(self), poll, r),
    {
        if self.exit_code.is_some() {
            return true;
        }
        match poll {
            ExitCodePoll::Ready(code) => {
                let c = match code {
                    Some(c) => c,
                    None => UNKNOWN_FAILURE_EXIT_CODE,
                };
                self.exit_code = Some(c);
                true
            },
            ExitCodePoll::Pending => false,
        }
    }
}

/// A finished process stays finished: once a poll has reported it finished, every later
/// poll does too, whatever the channel gives, and the exit code stays.
pub proof fn lemma_finished_stays_finished(
    p0: SpawnedProcess,
    p1: SpawnedProcess,
    p2: SpawnedProcess,
    first: ExitCodePoll,
    second: ExitCodePoll,
    r2: bool,
)
    requires
        p0.poll_finished_post(p1, first, true),
        p1.poll_finished_post(p2, second, r2),
    ensures
        r2,
        p2.spec_exit_code() == p1.spec_exit_code(),
        p1.spec_exit_code() is Some,
{
}

/// Once a process has an exit code it keeps it: whatever the channel answers later, the
/// same code is reported.
pub proof fn lemma_exit_code_sticky(known: u32, recv1: ExitCodeReceive, recv2: ExitCodeReceive)
    ensures
        spec_exit_code_after(Some(known), recv1) == Some(known),
        spec_exit_code_after(spec_exit_code_after(None, recv1), recv2) == spec_exit_code_after(
            None,
            recv1,
        ) || spec_exit_code_after(None, recv1) is None,
{
}

/// A process that asks to exit with a code ends with exactly that code, whichever code it
/// is (zero included), whether it asked during `_initialize` or during `_start`; only traps
/// and unknown WASI versions are given codes of the runtime's own.
pub proof fn lemma_exit_code_passes_through(c: u32)
    ensures
        spec_failure_exit_code(CallFailure::Exit(c)) == c,
        forall|f: CallFailure|
            #![auto]
            spec_failure_exit_code(f) == c && f !is Exit ==> c == WASI_ENOEXEC
                || c == UNKNOWN_FAILURE_EXIT_CODE,
        forall|d: u32|
            #![auto]
            d != c ==> spec_failure_exit_code(CallFailure::Exit(d)) != spec_failure_exit_code(
                CallFailure::Exit(c),
            ),
{
}

/// The exit code a spawned process reports is the one its channel carried: when no code is
/// known yet and the channel yields `c`, the process reports `Some(c)` and keeps `c`, for
/// every `c` (zero included); two different codes are never reported alike; and a code is
/// never invented while the channel is empty.
pub proof fn lemma_received_exit_code_is_reported(c: u32, d: u32)
    ensures
        spec_exit_code_after(None, ExitCodeReceive::Received(c)) == Some(c),
        c != d ==> spec_exit_code_after(None, ExitCodeReceive::Received(c)) != spec_exit_code_after(
            None,
            ExitCodeReceive::Received(d),
        ),
        spec_exit_code_after(None, ExitCodeReceive::Empty) is None,
        spec_exit_code_after(Some(c), ExitCodeReceive::Received(d)) == Some(c),
{
}

/// Polling a process whose exit code is not known yet records exactly the code the channel
/// yielded, for every code.
pub proof fn lemma_polled_exit_code_is_recorded(
    p0: SpawnedProcess,
    p1: SpawnedProcess,
    c: u32,
    r: bool,
)
    requires
        p0.spec_exit_code() is None,
        p0.poll_finished_post(p1, ExitCodePoll::Ready(Some(c)), r),
    ensures
        r,
        p1.spec_exit_code() == Some(c),
{
}

/// What happened at a step of starting a binary as a process.
#[derive(Debug)]
pub enum SpawnExecEvent<M> {
    /// The cache of compiled modules was asked: the module, if it held one.
    Cached(Option<M>),
    /// The binary was compiled: the module, or the compile error's message.
    Compiled(Result<M, String>),
    /// The task running the module was started, or the runtime refused it.
    Launched(Result<(), WasiThreadError>),
}

/// What starting a binary calls for next.
#[derive(Debug)]
pub enum SpawnExecAction<M> {
    /// Compile the binary.
    Compile,
    /// Keep the freshly compiled module in the cache, then launch it.
    StoreAndLaunch(M),
    /// Launch the module.
    Launch(M),
    /// Starting is over: the spawned process, or why it could not start.
    Done(BusResult<SpawnedProcess>),
}

/// The step that starting a binary takes after `event`: a cached module is launched, a cache
/// miss calls for compiling, a compiled module is stored and launched, and a failed compile
/// is a `CompileError`. A started task gives a process whose exit code is not known yet; a
/// task the runtime refused is an `UnknownError`.
pub fn spawn_exec_step<M>(event: SpawnExecEvent<M>) -> (r: SpawnExecAction<M>)
    ensures
        match event {
            SpawnExecEvent::Cached(Some(m)) => r == SpawnExecAction::<M>::Launch(m),
            SpawnExecEvent::Cached(None) => r is Compile,
            SpawnExecEvent::Compiled(Ok(m)) => r == SpawnExecAction::<M>::StoreAndLaunch(m),
            SpawnExecEvent::Compiled(Err(_)) => r matches SpawnExecAction::Done(Err(e)) && e
                == VirtualBusError::CompileError,
            SpawnExecEvent::Launched(Err(_)) => r matches SpawnExecAction::Done(Err(e)) && e
                == VirtualBusError::UnknownError,
            SpawnExecEvent::Launched(Ok(())) => r matches SpawnExecAction::Done(Ok(p))
                && p.spec_exit_code() is None,
        },
{
    match event {
        SpawnExecEvent::Cached(Some(m)) => SpawnExecAction::Launch(m),
        SpawnExecEvent::Cached(None) => SpawnExecAction::Compile,
        SpawnExecEvent::Compiled(Ok(m)) => SpawnExecAction::StoreAndLaunch(m),
        SpawnExecEvent::Compiled(Err(_)) => SpawnExecAction::Done(Err(VirtualBusError::CompileError)),
        SpawnExecEvent::Launched(Err(_)) => SpawnExecAction::Done(Err(VirtualBusError::UnknownError)),
        SpawnExecEvent::Launched(Ok(())) => SpawnExecAction::Done(Ok(SpawnedProcess::new())),
    }
}

} // verus!
