use wasi_runtime::checkpoint::{CheckpointPoll, CheckpointWait, WasmCheckpoint};
use wasi_runtime::exec::{
    exit_code_after_initialize, exit_code_after_start, failure_exit_code, CallFailure,
    spawn_exec_step, ExitCodePoll, ExitCodeReceive, SpawnExecAction, SpawnExecEvent,
    SpawnedProcess, UNKNOWN_FAILURE_EXIT_CODE,
};
use wasi_runtime::fs::RootFileSystemBuilder;
use wasi_runtime::guard::{
    FileHandleState, InodeValFilePollGuard, Kind, SocketKind, SocketState, WasiFdMap, WasiInodes,
    WasiStateFileGuard,
};
use wasi_runtime::runtime::{
    reqwest_response, reqwest_unsupported, tty_get, tty_get_with_modes, tty_state_from_dimensions,
    tty_state_with_modes, ReqwestOptions, WasiThreadError, WasiTtyState,
};
use wasi_runtime::thread::WasiThread;
use wasi_runtime::vbus::VirtualBusError;
use wasi_runtime::vfs::FsError;
use wasi_runtime::wasi_types::{WasiErrno, WASI_EFAULT, WASI_EINVAL, WASI_ENOEXEC, WASI_ENOTSUP};

#[test]
fn thread_errors_map_to_errno() {
    assert_eq!(WasiErrno::from(WasiThreadError::Unsupported), WASI_ENOTSUP);
    assert_eq!(WasiErrno::from(WasiThreadError::MethodNotFound), WASI_EINVAL);
    assert_eq!(WasiErrno::from(WasiThreadError::MemoryCreateFailed), WASI_EFAULT);
    assert_eq!(WasiErrno::from(WasiThreadError::InvalidWasmContext), WASI_ENOEXEC);
    assert_eq!(WASI_ENOTSUP, 58);
    assert_eq!(WASI_ENOEXEC, 45);
}

#[test]
fn thread_error_messages() {
    assert_eq!(WasiThreadError::Unsupported.message(), "Multithreading is not supported");
    assert_eq!(WasiThreadError::InvalidWasmContext.message(), "WASM context is invalid");
}

#[test]
fn tty_defaults() {
    let t = WasiTtyState::default();
    assert_eq!(t.rows, 80);
    assert_eq!(t.cols, 25);
    assert_eq!(t.width, 800);
    assert_eq!(t.height, 600);
    assert!(t.stdin_tty && t.stdout_tty && t.stderr_tty);
    assert!(!t.echo && !t.line_buffered && t.line_feeds);
    assert_eq!(tty_state_from_dimensions(None), t);
}

#[test]
fn tty_of_a_sized_terminal() {
    let t = tty_state_from_dimensions(Some((120, 40)));
    assert_eq!(t.cols, 120);
    assert_eq!(t.rows, 40);
    assert_eq!(t.width, 800);
    assert!(t.line_feeds);
    let now = tty_get();
    assert!(now == WasiTtyState::default() || (now.cols >= 1 && now.rows >= 1));
}

#[test]
fn http_is_unsupported_by_default() {
    assert_eq!(reqwest_unsupported().err(), Some(58));
    let o = ReqwestOptions::default();
    assert!(!o.gzip);
    assert!(o.cors_proxy.is_none());
}

#[test]
fn signals_wait_once_each() {
    let mut t = WasiThread::new();
    assert!(!t.is_finished());
    t.signal(2);
    t.signal(9);
    t.signal(2);
    assert_eq!(t.pop_signals(), vec![2, 9]);
    assert_eq!(t.pop_signals(), Vec::<u8>::new());
    t.mark_finished();
    assert!(t.is_finished());
}

#[test]
fn exit_codes_of_a_run() {
    assert_eq!(failure_exit_code(CallFailure::Exit(3)), 3);
    assert_eq!(failure_exit_code(CallFailure::UnknownWasiVersion), 45);
    assert_eq!(failure_exit_code(CallFailure::Runtime), UNKNOWN_FAILURE_EXIT_CODE);
    assert_eq!(UNKNOWN_FAILURE_EXIT_CODE, 9999);
    assert_eq!(exit_code_after_initialize(None), None);
    assert_eq!(exit_code_after_initialize(Some(Ok(()))), None);
    assert_eq!(exit_code_after_initialize(Some(Err(CallFailure::Exit(7)))), Some(7));
    assert_eq!(exit_code_after_start(None), 45);
    assert_eq!(exit_code_after_start(Some(Ok(()))), 0);
    assert_eq!(exit_code_after_start(Some(Err(CallFailure::Runtime))), 9999);
}

#[test]
fn exit_code_is_kept_once_known() {
    let mut p = SpawnedProcess::new();
    assert_eq!(p.exit_code(ExitCodeReceive::Empty), None);
    assert_eq!(p.exit_code(ExitCodeReceive::Received(4)), Some(4));
    assert_eq!(p.exit_code(ExitCodeReceive::Received(5)), Some(4));
    assert_eq!(p.exit_code(ExitCodeReceive::Disconnected), Some(4));
    let mut q = SpawnedProcess::new();
    assert_eq!(q.exit_code(ExitCodeReceive::Disconnected), Some(9999));
    let mut r = SpawnedProcess::new();
    assert!(r.poll_finished(ExitCodePoll::Ready(None)));
    assert_eq!(r.known_exit_code(), Some(9999));
    assert!(r.poll_finished(ExitCodePoll::Ready(Some(1))));
    assert_eq!(r.known_exit_code(), Some(9999));
}

#[test]
fn spawned_process_is_ready_at_launch() {
    let mut p = SpawnedProcess::new();
    assert!(p.poll_ready());
    assert!(!p.poll_finished(ExitCodePoll::Pending));
    assert_eq!(p.known_exit_code(), None);
    assert!(p.poll_ready());
    assert!(p.poll_finished(ExitCodePoll::Ready(Some(3))));
    assert_eq!(p.known_exit_code(), Some(3));
    assert!(p.poll_finished(ExitCodePoll::Pending));
    assert_eq!(p.known_exit_code(), Some(3));
    assert!(p.poll_ready());
}

#[test]
fn spawn_exec_steps() {
    assert!(matches!(spawn_exec_step(SpawnExecEvent::Cached(Some(5u8))), SpawnExecAction::Launch(5)));
    assert!(matches!(spawn_exec_step::<u8>(SpawnExecEvent::Cached(None)), SpawnExecAction::Compile));
    assert!(matches!(
        spawn_exec_step(SpawnExecEvent::Compiled(Ok(6u8))),
        SpawnExecAction::StoreAndLaunch(6)
    ));
    assert!(matches!(
        spawn_exec_step::<u8>(SpawnExecEvent::Compiled(Err("bad magic".to_string()))),
        SpawnExecAction::Done(Err(VirtualBusError::CompileError))
    ));
    assert!(matches!(
        spawn_exec_step::<u8>(SpawnExecEvent::Launched(Err(WasiThreadError::Unsupported))),
        SpawnExecAction::Done(Err(VirtualBusError::UnknownError))
    ));
    match spawn_exec_step::<u8>(SpawnExecEvent::Launched(Ok(()))) {
        SpawnExecAction::Done(Ok(p)) => {
            assert_eq!(p.known_exit_code(), None);
            assert!(p.poll_ready());
        }
        other => panic!("unexpected step {:?}", other),
    }
}

#[test]
fn root_file_system_layout() {
    let fs = RootFileSystemBuilder::new().build();
    assert_eq!(fs.mounts.len(), 1);
    let m = &fs.mounts[0];
    assert_eq!(m.path, "/");
    assert_eq!(m.name, "/");
    for d in ["/.app", "/.private", "/bin", "/dev", "/etc", "/tmp"] {
        assert!(m.fs.dir_exists(d));
    }
    assert!(!m.fs.dir_exists("/home"));
    let bare = RootFileSystemBuilder::new().default_root_dirs(false).build();
    assert!(!bare.mounts[0].fs.dir_exists("/bin"));
}

#[test]
fn creating_a_directory_twice_fails() {
    let mut fs = wasi_runtime::fs::TmpFileSystem::new();
    assert_eq!(fs.create_dir("/x"), Ok(()));
    assert_eq!(fs.create_dir("/x"), Err(FsError::AlreadyExists));
}

#[test]
fn poll_guard_reports_availability() {
    let file = Kind::File {
        handle: Some(FileHandleState {
            open: true,
            read_available: Ok(Some(10)),
            write_available: Ok(Some(20)),
            available: Ok(30),
            last_accessed: 1,
            last_modified: 2,
            created_time: 3,
            size: 4,
        }),
    };
    let g = InodeValFilePollGuard { guard: &file };
    assert_eq!(g.description(), "guard-file");
    assert_eq!(g.bytes_available_read(), Ok(Some(10)));
    assert_eq!(g.bytes_available_write(), Ok(Some(20)));
    assert!(g.is_open());
    let closed = Kind::File { handle: None };
    let g = InodeValFilePollGuard { guard: &closed };
    assert_eq!(g.bytes_available_read(), Ok(None));
    assert!(!g.is_open());
    let sock = Kind::Socket { socket: SocketState { kind: SocketKind::TcpStream, peek: Ok(3), can_write: false } };
    let g = InodeValFilePollGuard { guard: &sock };
    assert_eq!(g.description(), "guard-tcp-stream");
    assert_eq!(g.bytes_available_read(), Ok(Some(3)));
    assert_eq!(g.bytes_available_write(), Ok(Some(0)));
    assert!(g.is_open());
    let sock = Kind::Socket { socket: SocketState { kind: SocketKind::PreSocket, peek: Err(FsError::BrokenPipe), can_write: true } };
    let g = InodeValFilePollGuard { guard: &sock };
    assert_eq!(g.description(), "guard-socket");
    assert_eq!(g.bytes_available_read(), Err(FsError::BrokenPipe));
    assert_eq!(g.bytes_available_write(), Ok(Some(4096)));
    let ev = Kind::EventNotifications { counter: 5, waker_count: 2 };
    let g = InodeValFilePollGuard { guard: &ev };
    assert_eq!(g.bytes_available_read(), Ok(Some(5)));
    assert_eq!(g.bytes_available_write(), Ok(Some(2)));
    let dir = Kind::Dir;
    let g = InodeValFilePollGuard { guard: &dir };
    assert_eq!(g.description(), "guard-unknown");
    assert_eq!(g.bytes_available_read(), Ok(None));
    assert!(!g.is_open());
}

#[test]
fn file_guard_for_descriptors() {
    let inodes = WasiInodes {
        arena: vec![Kind::Dir, Kind::File { handle: None }],
    };
    let fds = WasiFdMap { entries: vec![(3, 0), (4, 1)] };
    assert!(matches!(WasiStateFileGuard::new(&inodes, &fds, 9), Ok(None)));
    assert!(matches!(WasiStateFileGuard::new(&inodes, &fds, 3), Err(FsError::NotAFile)));
    let g = WasiStateFileGuard::new(&inodes, &fds, 4).unwrap().unwrap();
    assert!(!g.is_open(&inodes));
    assert_eq!(g.bytes_available_read(&inodes), Err(FsError::IOError));
    assert_eq!(g.bytes_available_write(&inodes), Err(FsError::IOError));
    let open = WasiInodes {
        arena: vec![Kind::File {
            handle: Some(FileHandleState {
                open: true,
                read_available: Ok(Some(1)),
                write_available: Ok(None),
                available: Err(FsError::WouldBlock),
                last_accessed: 10,
                last_modified: 20,
                created_time: 30,
                size: 40,
            }),
        }],
    };
    let h = WasiStateFileGuard::new(&open, &WasiFdMap { entries: vec![(0, 0)] }, 0).unwrap().unwrap();
    assert!(h.is_open(&open));
    assert_eq!(h.bytes_available_read(&open), Ok(Some(1)));
    assert_eq!(h.bytes_available_write(&open), Ok(None));
    assert_eq!(h.bytes_available(&open), Err(FsError::WouldBlock));
    assert_eq!(
        (h.last_accessed(&open), h.last_modified(&open), h.created_time(&open), h.size(&open)),
        (10, 20, 30, 40)
    );
    assert_eq!((g.last_accessed(&inodes), g.size(&inodes)), (0, 0));
    assert_eq!(g.bytes_available(&inodes), Err(FsError::IOError));
    let read = g.lock_read(&inodes);
    assert!(read.handle().is_none());
    let poll = read.into_poll_guard();
    assert!(!poll.is_open());
}

#[test]
fn checkpoint_triggers_once_and_stays() {
    let mut c = WasmCheckpoint::new();
    assert_eq!(c.poll_start(), CheckpointPoll::PollReceiver);
    assert_eq!(c.poll_received(false), CheckpointPoll::Pending);
    assert_eq!(c.wait_start(), CheckpointWait::Receive);
    assert!(c.wait_received(true));
    assert_eq!(c.wait_start(), CheckpointWait::Done(true));
    assert_eq!(c.poll_start(), CheckpointPoll::Ready);
}

#[test]
fn checkpoint_without_receiver() {
    let mut c = WasmCheckpoint::new();
    assert_eq!(c.wait_start(), CheckpointWait::Receive);
    assert!(!c.wait_received(false));
    assert_eq!(c.wait_start(), CheckpointWait::Done(false));
    assert_eq!(c.poll_start(), CheckpointPoll::Ready);
    assert_eq!(c.wait_start(), CheckpointWait::Done(true));
}

#[test]
fn completed_http_exchange() {
    let r = reqwest_response(404, vec![1, 2]);
    assert_eq!(r.status, 404);
    assert_eq!(r.status_text, "404");
    assert_eq!(r.data, Some(vec![1, 2]));
    assert!(r.ok && !r.redirected);
    assert_eq!(r.pos, 0);
    assert!(r.headers.is_empty());
    assert_eq!(reqwest_response(200, vec![]).status_text, "200");
}

#[test]
fn tty_with_terminal_modes() {
    let t = tty_state_with_modes(Some((100, 30)), true, true, false);
    assert_eq!((t.cols, t.rows), (100, 30));
    assert!(t.echo && t.line_buffered && !t.line_feeds);
    let d = tty_state_with_modes(None, false, true, true);
    assert_eq!((d.rows, d.cols), (80, 25));
    assert!(!d.echo && d.line_buffered && d.line_feeds);
    let now = tty_get_with_modes(true, false, false);
    assert!(now.echo && !now.line_buffered && !now.line_feeds);
}
