use std::time::Duration;

use wasi_runtime::instance::{
    Extern, ExternKind, ExportError, HostEnvInitError, Instance, InstantiationError, RuntimeError,
};
use wasi_runtime::networking::{
    recv_truncated, try_recv_outcome, AcceptEvent, ListenerBacklog, LocalNetworking, NetworkError,
    PeekStep, TcpStreamOptions, TimeType, TimeoutApply, RECV_BUFFER_SIZE,
};
use wasi_runtime::wasi_command::{atom_map, split_once_eq, HandledResult, StartFailure, Wasi};

#[test]
fn split_at_first_equals() {
    assert_eq!(split_once_eq("a=b=c"), Some(("a".to_string(), "b=c".to_string())));
    assert_eq!(split_once_eq("=x"), Some(("".to_string(), "x".to_string())));
    assert_eq!(split_once_eq("x="), Some(("x".to_string(), "".to_string())));
    assert_eq!(split_once_eq("none"), None);
}

#[test]
fn atom_map_keeps_last_value_per_name() {
    let m = atom_map(&vec!["a=1".to_string(), "b=2".to_string(), "a=3".to_string()]);
    assert_eq!(m, vec![("a".to_string(), "3".to_string()), ("b".to_string(), "2".to_string())]);
    assert!(atom_map(&vec![]).is_empty());
}

#[test]
fn wasix_module_gets_a_sandboxed_root() {
    let wasi = Wasi {
        map_atoms: vec!["x=y".to_string()],
        env_vars: vec![("K".to_string(), "V".to_string())],
        ..Wasi::default()
    };
    let s = wasi.setup("prog".to_string(), &vec!["--help".to_string(), "é".to_string()], true);
    assert_eq!(s.program_name, "prog");
    assert_eq!(s.args, vec![b"--help".to_vec(), "é".as_bytes().to_vec()]);
    assert!(s.full_sandbox);
    assert_eq!(s.preopen_dirs, vec!["/".to_string()]);
    assert_eq!(s.map_dirs, vec![(".".to_string(), "/".to_string())]);
    assert_eq!(s.map_atoms, vec![("x".to_string(), "y".to_string())]);
    assert_eq!(s.envs, vec![("K".to_string(), "V".to_string())]);
}

#[test]
fn plain_module_keeps_its_directories() {
    let wasi = Wasi {
        pre_opened_directories: vec!["/data".to_string()],
        mapped_dirs: vec![("/g".to_string(), "/h".to_string())],
        inherits: vec!["dep".to_string()],
        ..Wasi::default()
    };
    let s = wasi.setup("p".to_string(), &vec![], false);
    assert!(!s.full_sandbox);
    assert_eq!(s.preopen_dirs, vec!["/data".to_string()]);
    assert_eq!(s.map_dirs, vec![("/g".to_string(), "/h".to_string())]);
    assert_eq!(s.inherits, vec!["dep".to_string()]);
    let t = wasi.setup("p".to_string(), &vec![], true);
    assert!(t.full_sandbox);
    assert_eq!(t.preopen_dirs, vec!["/data".to_string()]);
}

#[test]
fn start_results() {
    let wasi = Wasi::default();
    assert!(matches!(wasi.handle_result(Ok(())), HandledResult::Finished));
    assert!(matches!(wasi.handle_result(Err(StartFailure::Exit(3))), HandledResult::ExitProcess(3)));
    assert!(matches!(
        wasi.handle_result(Err(StartFailure::Exit(u32::MAX))),
        HandledResult::ExitProcess(-1)
    ));
    match wasi.handle_result(Err(StartFailure::Error("trap".to_string()))) {
        HandledResult::Failed(m) => assert_eq!(m, "trap"),
        other => panic!("unexpected {:?}", other),
    }
}

#[test]
fn binfmt_interpreter_options() {
    let w = Wasi::for_binfmt_interpreter(None, vec![("A".to_string(), "1".to_string())]);
    assert_eq!(w.pre_opened_directories, vec![".".to_string()]);
    assert!(w.deny_multiple_wasi_versions);
    assert!(!w.allow_multiple_wasi_versions);
    assert_eq!(w.env_vars, vec![("A".to_string(), "1".to_string())]);
    let w = Wasi::for_binfmt_interpreter(Some("/srv".to_string()), vec![]);
    assert_eq!(w.pre_opened_directories, vec!["/srv".to_string()]);
}

#[test]
fn stream_timeouts_are_read_back() {
    let _net = LocalNetworking::default();
    let mut o = TcpStreamOptions::new();
    assert_eq!(o.opt_time(TimeType::ReadTimeout), Ok(None));
    let d = Duration::from_millis(250);
    assert_eq!(o.set_opt_time(TimeType::ReadTimeout, Some(d)), Ok(TimeoutApply::Read));
    assert_eq!(o.set_opt_time(TimeType::WriteTimeout, Some(d * 2)), Ok(TimeoutApply::Write));
    assert_eq!(o.set_opt_time(TimeType::ConnectTimeout, Some(d * 3)), Ok(TimeoutApply::Nothing));
    assert_eq!(o.opt_time(TimeType::ReadTimeout), Ok(Some(d)));
    assert_eq!(o.opt_time(TimeType::WriteTimeout), Ok(Some(d * 2)));
    assert_eq!(o.opt_time(TimeType::ConnectTimeout), Ok(Some(d * 3)));
    assert_eq!(o.set_opt_time(TimeType::AcceptTimeout, Some(d)), Err(NetworkError::InvalidInput));
    assert_eq!(o.set_opt_time(TimeType::Linger, Some(d)), Err(NetworkError::InvalidInput));
    assert_eq!(o.opt_time(TimeType::Linger), Ok(None));
    assert_eq!(o.opt_time(TimeType::AcceptTimeout), Err(NetworkError::InvalidInput));
}

#[test]
fn backlog_hands_out_last_accepted_first() {
    let mut b: ListenerBacklog<u32> = ListenerBacklog::new();
    assert_eq!(b.peek_start(), None);
    assert!(matches!(b.peek_event(AcceptEvent::Accepted(1)), PeekStep::AcceptAgain));
    assert!(matches!(b.peek_event(AcceptEvent::Accepted(2)), PeekStep::AcceptAgain));
    assert!(matches!(b.peek_event(AcceptEvent::NoneWaiting), PeekStep::Done(Ok(2))));
    assert_eq!(b.peek_start(), Some(2));
    assert_eq!(b.pop(), Some(2));
    assert_eq!(b.push(3), 2);
    assert_eq!(b.pop(), Some(3));
    assert_eq!(b.pop(), Some(1));
    assert_eq!(b.pop(), None);
    assert!(matches!(
        b.peek_event(AcceptEvent::Failed(NetworkError::ConnectionReset)),
        PeekStep::Done(Err(NetworkError::ConnectionReset))
    ));
    assert_eq!(b.set_timeout(Some(Duration::from_secs(1))), Ok(()));
    assert_eq!(b.timeout(), Ok(Some(Duration::from_secs(1))));
    b.set_nonblocking(true);
    assert_eq!(b.nonblocking(), Ok(true));
    assert_eq!(b.len(), 0);
}

#[test]
fn reads_report_truncation() {
    assert_eq!(RECV_BUFFER_SIZE, 8192);
    assert!(recv_truncated(8192));
    assert!(!recv_truncated(8191));
    assert_eq!(try_recv_outcome(Ok(5)), Ok(Some(5)));
    assert_eq!(try_recv_outcome(Err(NetworkError::WouldBlock)), Ok(None));
    assert_eq!(try_recv_outcome(Err(NetworkError::TimedOut)), Ok(None));
    assert_eq!(try_recv_outcome(Err(NetworkError::BrokenPipe)), Err(NetworkError::BrokenPipe));
}

#[test]
fn instantiation_error_messages() {
    assert_eq!(InstantiationError::Link("bad import".to_string()).message(), "Link error: bad import");
    assert_eq!(
        InstantiationError::Start(RuntimeError { message: "unreachable".to_string() }).message(),
        "unreachable"
    );
    assert_eq!(
        InstantiationError::HostEnvInitialization(HostEnvInitError { message: "env".to_string() })
            .message(),
        "env"
    );
}

#[test]
fn exports_resolve_with_memory_fallback() {
    let f = Extern { kind: ExternKind::Function, handle: 1 };
    let m = Extern { kind: ExternKind::Memory, handle: 2 };
    let g = Extern { kind: ExternKind::Global, handle: 3 };
    let i = Instance::new(vec![("run".to_string(), f), ("run".to_string(), g)], vec![g, m]);
    assert_eq!(i.resolve("run", ExternKind::Function).ok(), Some(f));
    assert!(matches!(i.resolve("run", ExternKind::Global), Err(ExportError::IncompatibleType)));
    assert_eq!(i.resolve("memory", ExternKind::Memory).ok(), Some(m));
    assert!(matches!(i.resolve("memory", ExternKind::Table), Err(ExportError::IncompatibleType)));
    match i.resolve("other", ExternKind::Function) {
        Err(ExportError::Missing(n)) => assert_eq!(n, "other"),
        other => panic!("unexpected {:?}", other),
    }
    let j = Instance::new(vec![], vec![f]);
    match j.resolve("memory", ExternKind::Memory) {
        Err(ExportError::Missing(n)) => assert_eq!(n, "memory"),
        other => panic!("unexpected {:?}", other),
    }
}

#[test]
fn thread_numbers_increase() {
    let mut i = Instance::new(vec![], vec![]);
    assert_eq!(i.new_thread(), 1);
    assert_eq!(i.new_thread(), 2);
    assert_eq!(i.new_thread(), 3);
}
