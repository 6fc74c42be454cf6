//! WASI numbers used by the runtime: error codes and signals.

use vstd::prelude::*;

verus! {

/// A WASI error number.
pub type WasiErrno = u16;

/// A WASI signal number.
pub type WasiSignal = u8;

/// Bad address.
pub const WASI_EFAULT: WasiErrno = 21;

/// Invalid argument.
pub const WASI_EINVAL: WasiErrno = 28;

/// I/O error.
pub const WASI_EIO: WasiErrno = 29;

/// Executable file format error.
pub const WASI_ENOEXEC: WasiErrno = 45;

/// Not supported.
pub const WASI_ENOTSUP: WasiErrno = 58;

} // verus!
