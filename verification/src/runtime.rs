//! Runtime settings: thread errors, the terminal state and HTTP request data.

use vstd::prelude::*;

use crate::wapm::{decimal, push_decimal};
use crate::wasi_types::{WasiErrno, WASI_EFAULT, WASI_EINVAL, WASI_ENOEXEC, WASI_ENOTSUP};

verus! {

/// Errors of the threading support of a runtime.
#[derive(Debug, Clone, Copy, PartialEq, Eq, Structural)]
pub enum WasiThreadError {
    /// Multithreading is not supported
    Unsupported,
    /// The method named is not an exported function
    MethodNotFound,
    /// Failed to create the requested memory
    MemoryCreateFailed,
    /// This will happen if WASM is running in a thread has not been created by the spawn_wasm call
    InvalidWasmContext,
}

/// The WASI error number each thread error is reported as.
pub open spec fn thread_error_errno(e: WasiThreadError) -> WasiErrno {
    match e {
        WasiThreadError::Unsupported => WASI_ENOTSUP,
        WasiThreadError::MethodNotFound => WASI_EINVAL,
        WasiThreadError::MemoryCreateFailed => WASI_EFAULT,
        WasiThreadError::InvalidWasmContext => WASI_ENOEXEC,
    }
}

/// The text each thread error is displayed with.
pub open spec fn thread_error_text(e: WasiThreadError) -> Seq<char> {
    match e {
        WasiThreadError::Unsupported => "Multithreading is not supported"@,
        WasiThreadError::MethodNotFound => "The method named is not an exported function"@,
        WasiThreadError::MemoryCreateFailed => "Failed to create the requested memory"@,
        WasiThreadError::InvalidWasmContext => "WASM context is invalid"@,
    }
}

impl WasiThreadError {
    /// The message this error is displayed with.
    pub fn message(&self) -> (r: &'static str)
        ensures
            r@ == thread_error_text(*self),
    {
        match self {
            WasiThreadError::Unsupported => "Multithreading is not supported",
            WasiThreadError::MethodNotFound => "The method named is not an exported function",
            WasiThreadError::MemoryCreateFailed => "Failed to create the requested memory",
            WasiThreadError::InvalidWasmContext => "WASM context is invalid",
        }
    }
}

impl From<WasiThreadError> for WasiErrno {
    fn from(a: WasiThreadError) -> (r: WasiErrno)
        ensures
            r == thread_error_errno(a),
    {
        match a {
            WasiThreadError::Unsupported => WASI_ENOTSUP,
            WasiThreadError::MethodNotFound => WASI_EINVAL,
            WasiThreadError::MemoryCreateFailed => WASI_EFAULT,
            WasiThreadError::InvalidWasmContext => WASI_ENOEXEC,
        }
    }
}

impl vstd::std_specs::convert::FromSpecImpl<WasiThreadError> for WasiErrno {
    open spec fn obeys_from_spec() -> bool {
        true
    }

    open spec fn from_spec(a: WasiThreadError) -> WasiErrno {
        thread_error_errno(a)
    }
}

/// The state of the terminal a process is attached to.
#[derive(Debug, Clone, Copy, PartialEq, Eq, PartialOrd, Ord, Structural)]
pub struct WasiTtyState {
    pub cols: u32,
    pub rows: u32,
    pub width: u32,
    pub height: u32,
    pub stdin_tty: bool,
    pub stdout_tty: bool,
    pub stderr_tty: bool,
    pub echo: bool,
    pub line_buffered: bool,
    pub line_feeds: bool,
}

/// The terminal state assumed when nothing is known of the terminal.
pub open spec fn default_tty_state() -> WasiTtyState {
    WasiTtyState {
        rows: 80,
        cols: 25,
        width: 800,
        height: 600,
        stdin_tty: true,
        stdout_tty: true,
        stderr_tty: true,
        echo: false,
        line_buffered: false,
        line_feeds: true,
    }
}

/// The terminal state reported for a terminal of `w` columns and `h` rows.
pub open spec fn tty_state_of_size(w: usize, h: usize) -> WasiTtyState {
    WasiTtyState {
        cols: w as u32,
        rows: h as u32,
        width: 800,
        height: 600,
        stdin_tty: true,
        stdout_tty: true,
        stderr_tty: true,
        echo: false,
        line_buffered: false,
        line_feeds: true,
    }
}

impl Default for WasiTtyState {
    fn default() -> (r: Self)
        ensures
            r == default_tty_state(),
    {
        WasiTtyState {
            rows: 80,
            cols: 25,
            width: 800,
            height: 600,
            stdin_tty: true,
            stdout_tty: true,
            stderr_tty: true,
            echo: false,
            line_buffered: false,
            line_feeds: true,
        }
    }
}

/// The terminal state for the terminal size found, or the default state when none was found.
pub fn tty_state_from_dimensions(dimensions: Option<(usize, usize)>) -> (r: WasiTtyState)
    ensures
        match dimensions {
            Some((w, h)) => r == tty_state_of_size(w, h),
            None => r == default_tty_state(),
        },
{
    match dimensions {
        Some((w, h)) => WasiTtyState {
            cols: w as u32,
            rows: h as u32,
            width: 800,
            height: 600,
            stdin_tty: true,
            stdout_tty: true,
            stderr_tty: true,
            echo: false,
            line_buffered: false,
            line_feeds: true,
        },
        None => WasiTtyState::default(),
    }
}

/// Asks the terminal behind the standard streams for its size in columns and rows.
/// `term_size::dimensions` answers `None` when no stream is a terminal or one side is zero,
/// so a size it reports is at least one and at most `u16::MAX` on each side. Which answer
/// comes depends on the terminal at the time of the call and is not stated.
#[verifier::external_body]
fn terminal_dimensions() -> (r: Option<(usize, usize)>)
    ensures
        r matches Some((w, h)) ==> 1 <= w <= u16::MAX && 1 <= h <= u16::MAX,
{
    term_size::dimensions()
}

/// The terminal state of the terminal the runtime is attached to: its real size when it is
/// a terminal, the default state otherwise.
pub fn tty_get() -> (r: WasiTtyState)
    ensures
        r == default_tty_state() || exists|w: usize, h: usize|
            1 <= w <= u16::MAX && 1 <= h <= u16::MAX && r == tty_state_of_size(w, h),
{
    let dims = terminal_dimensions();
    let r = tty_state_from_dimensions(dims);
    if let Some((w, h)) = dims {
        assert(r == tty_state_of_size(w, h));
    }
    r
}

/// The terminal state reported for a terminal whose size was found (or not), with the given
/// echo, line-buffering and line-feed modes.
pub open spec fn tty_state_with_modes_of(
    dimensions: Option<(usize, usize)>,
    echo: bool,
    line_buffered: bool,
    line_feeds: bool,
) -> WasiTtyState {
    let base = match dimensions {
        Some((w, h)) => tty_state_of_size(w, h),
        None => default_tty_state(),
    };
    WasiTtyState { echo, line_buffered, line_feeds, ..base }
}

/// The terminal state for the terminal size found, or the default size, with the modes the
/// terminal reports.
pub fn tty_state_with_modes(
    dimensions: Option<(usize, usize)>,
    echo: bool,
    line_buffered: bool,
    line_feeds: bool,
) -> (r: WasiTtyState)
    ensures
        r == tty_state_with_modes_of(dimensions, echo, line_buffered, line_feeds),
{
    let base = tty_state_from_dimensions(dimensions);
    WasiTtyState { echo, line_buffered, line_feeds, ..base }
}

/// The terminal state of the terminal the runtime is attached to, with the modes the
/// terminal reports: its real size when it is a terminal, the default size otherwise.
pub fn tty_get_with_modes(echo: bool, line_buffered: bool, line_feeds: bool) -> (r: WasiTtyState)
    ensures
        r == tty_state_with_modes_of(None, echo, line_buffered, line_feeds) || exists|w: usize, h: usize|
            1 <= w <= u16::MAX && 1 <= h <= u16::MAX && r == tty_state_with_modes_of(
                Some((w, h)),
                echo,
                line_buffered,
                line_feeds,
            ),
{
    let dims = terminal_dimensions();
    tty_state_with_modes(dims, echo, line_buffered, line_feeds)
}

/// Options of an HTTP request made by a process.
#[derive(Debug)]
pub struct ReqwestOptions {
    pub gzip: bool,
    pub cors_proxy: Option<String>,
}

impl Default for ReqwestOptions {
    fn default() -> (r: Self)
        ensures
            !r.gzip,
            r.cors_proxy is None,
    {
        ReqwestOptions { gzip: false, cors_proxy: None }
    }
}

/// The response to an HTTP request made by a process.
#[derive(Debug)]
pub struct ReqwestResponse {
    pub pos: usize,
    pub data: Option<Vec<u8>>,
    pub ok: bool,
    pub redirected: bool,
    pub status: u16,
    pub status_text: String,
    pub headers: Vec<(String, String)>,
}

/// What a runtime without HTTP support answers to every request: the error number of an
/// unsupported operation.
pub fn reqwest_unsupported() -> (r: Result<ReqwestResponse, u32>)
    ensures
        r matches Err(e) && e == WASI_ENOTSUP as u32,
{
    Err(WASI_ENOTSUP as u32)
}

/// The response to an HTTP exchange that completed: status `status` with its code as text,
/// the body `data`, no headers, not redirected.
pub fn reqwest_response(status: u16, data: Vec<u8>) -> (r: ReqwestResponse)
    ensures
        r.pos == 0,
        r.ok,
        !r.redirected,
        r.status == status,
        r.status_text@ == decimal(status as nat),
        r.data == Some(data),
        r.headers@.len() == 0,
{
    let mut status_text = String::new();
    push_decimal(&mut status_text, status as u128);
    ReqwestResponse {
        pos: 0,
        data: Some(data),
        ok: true,
        redirected: false,
        status,
        status_text,
        headers: Vec::new(),
    }
}

/// How the memory of a WebAssembly task is provided: created by the module itself, created
/// by the runtime with the type `M` the module imports, or the memory `V` of the thread
/// that spawned it.
#[derive(Debug)]
pub enum SpawnType<M, V> {
    Create,
    CreateWithType(M),
    NewThread(V),
}

} // verus!
