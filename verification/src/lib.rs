//! Core logic of a WASI runtime: operand locations, the virtual bus and process spawning,
//! the root file system layout, file guards, thread signals and checkpoints, runtime
//! settings, the caches of compiled modules and binaries, the running of spawned binaries,
//! package lookup and loading, the WASI options of the `run` command, socket option state
//! and instance exports.

pub mod location;
pub mod vfs;

pub mod vbus;
pub mod spawn;
pub mod text;
pub mod fs;
pub mod guard;
pub mod wasi_types;
pub mod runtime;
pub mod thread;
pub mod checkpoint;
pub mod bin_factory;
pub mod exec;
pub mod wapm;
pub mod wasi_command;
pub mod networking;
pub mod instance;
