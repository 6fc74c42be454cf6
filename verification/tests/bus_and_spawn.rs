use wasi_runtime::location::{Location, Multiplier, Value};
use wasi_runtime::spawn::{
    unsupported_spawn_existing, unsupported_spawn_new, NewSpawnBuilder, SpawnEnvironmentIntrinsics,
    SpawnOptions, SpawnOptionsConfig, SpawnType, VirtualBusSpawner,
};
use wasi_runtime::vbus::{
    Accepted, BusDataFormat, BusInvocationEvent, CallDescriptor, InstantInvocation,
    VirtualBusError, VirtualBusInvokable, VirtualBusInvocation,
    VirtualBusInvoked,
};
use wasi_runtime::vfs::StdioMode;

type Loc = Location<u8, u8>;

#[test]
fn imm_value_reinterprets_as_signed() {
    assert_eq!(Loc::Imm8(255).imm_value(), Some(Value::I8(-1)));
    assert_eq!(Loc::Imm8(127).imm_value(), Some(Value::I8(127)));
    assert_eq!(Loc::Imm32(0x8000_0000).imm_value(), Some(Value::I32(i32::MIN)));
    assert_eq!(Loc::Imm64(u64::MAX).imm_value(), Some(Value::I64(-1)));
    assert_eq!(Loc::GPR(3).imm_value(), None);
    assert_eq!(Loc::Memory(1, -8).imm_value(), None);
    assert_eq!(Loc::Empty.imm_value(), None);
}

#[test]
fn multiplier_factors() {
    assert_eq!(Multiplier::Zero.factor(), 0);
    assert_eq!(Multiplier::One.factor(), 1);
    assert_eq!(Multiplier::Two.factor(), 2);
    assert_eq!(Multiplier::Four.factor(), 4);
    assert_eq!(Multiplier::Height.factor(), 8);
}

#[test]
fn call_descriptor_round_trips_its_number() {
    let d = CallDescriptor::from(42u32);
    assert_eq!(d.raw(), 42);
    assert_eq!(CallDescriptor::from(u32::MAX).raw(), u32::MAX);
}

#[test]
fn bus_error_messages() {
    assert_eq!(VirtualBusError::Unsupported.message(), "unsupported");
    assert_eq!(VirtualBusError::AlreadyConsumed.message(), "already consumed");
    assert_eq!(VirtualBusError::InvalidABI.message(), "WAPM process has an invalid ABI");
    assert_eq!(VirtualBusError::UnknownError.message(), "unknown error found");
}

#[test]
fn instant_response_is_delivered_once() {
    let mut inv: InstantInvocation<u32> = InstantInvocation::response(BusDataFormat::Json, vec![1, 2, 3]);
    let accepted = inv.poll_invoked();
    let mut inner = match accepted {
        Some(Ok(Accepted::Instant(i))) => i,
        other => panic!("unexpected {:?}", other),
    };
    match inner.poll_event() {
        Some(BusInvocationEvent::Response { format, data }) => {
            assert_eq!(format, BusDataFormat::Json);
            assert_eq!(data, vec![1, 2, 3]);
        }
        other => panic!("unexpected {:?}", other),
    }
    match inner.poll_event() {
        Some(BusInvocationEvent::Fault { fault }) => assert_eq!(fault, VirtualBusError::AlreadyConsumed),
        other => panic!("unexpected {:?}", other),
    }
    match inv.poll_invoked() {
        Some(Err(e)) => assert_eq!(e, VirtualBusError::AlreadyConsumed),
        other => panic!("unexpected {:?}", other),
    }
}

#[test]
fn instant_fault_is_reported_once() {
    let mut inv: InstantInvocation<u32> = InstantInvocation::fault(VirtualBusError::BadHandle);
    match inv.poll_invoked() {
        Some(Err(e)) => assert_eq!(e, VirtualBusError::BadHandle),
        other => panic!("unexpected {:?}", other),
    }
    match inv.poll_invoked() {
        Some(Err(e)) => assert_eq!(e, VirtualBusError::AlreadyConsumed),
        other => panic!("unexpected {:?}", other),
    }
}

#[test]
fn instant_call_is_forwarded_once() {
    let mut inv: InstantInvocation<u32> = InstantInvocation::call(7);
    match inv.poll_invoked() {
        Some(Ok(Accepted::Forwarded(c))) => assert_eq!(c, 7),
        other => panic!("unexpected {:?}", other),
    }
    match inv.poll_invoked() {
        Some(Err(e)) => assert_eq!(e, VirtualBusError::AlreadyConsumed),
        other => panic!("unexpected {:?}", other),
    }
}

#[test]
fn invoking_an_instant_invocation_fails_with_invalid_topic() {
    let inv: InstantInvocation<u32> = InstantInvocation::call(1);
    let mut nested = inv.invoke(99, BusDataFormat::Raw, vec![]);
    match nested.poll_invoked() {
        Some(Err(e)) => assert_eq!(e, VirtualBusError::InvalidTopic),
        other => panic!("unexpected {:?}", other),
    }
}

/// An environment that an existing process runs in.
#[derive(Debug, Clone)]
struct Env {
    args: Vec<String>,
}

impl SpawnEnvironmentIntrinsics for Env {
    fn chroot(&self) -> bool {
        true
    }
    fn args(&self) -> &Vec<String> {
        &self.args
    }
    fn preopen(&self) -> &Vec<String> {
        &self.args
    }
    fn stdin_mode(&self) -> StdioMode {
        StdioMode::Log
    }
    fn stdout_mode(&self) -> StdioMode {
        StdioMode::Piped
    }
    fn stderr_mode(&self) -> StdioMode {
        StdioMode::Inherit
    }
    fn working_dir(&self) -> String {
        "/env".to_string()
    }
}

/// What a spawner was asked to spawn.
#[derive(Debug, PartialEq)]
struct Request {
    name: String,
    reuse: bool,
    chroot: bool,
    args: Vec<String>,
    preopen: Vec<String>,
    stdin: StdioMode,
    stdout: StdioMode,
    stderr: StdioMode,
    working_dir: Option<String>,
    remote_instance: Option<String>,
    access_token: Option<String>,
}

struct RecordingSpawner;

impl VirtualBusSpawner<Env, Request> for RecordingSpawner {
    fn spawn(&mut self, name: &str, config: &SpawnOptionsConfig<Env>) -> Result<Request, VirtualBusError> {
        Ok(Request {
            name: name.to_string(),
            reuse: config.reuse(),
            chroot: config.chroot(),
            args: config.args().clone(),
            preopen: config.preopen().clone(),
            stdin: config.stdin_mode(),
            stdout: config.stdout_mode(),
            stderr: config.stderr_mode(),
            working_dir: config.working_dir(),
            remote_instance: config.remote_instance().map(|s| s.to_string()),
            access_token: config.access_token().map(|s| s.to_string()),
        })
    }
}

#[test]
fn builder_hands_its_settings_to_the_spawner() {
    let mut options = NewSpawnBuilder::<Env, RecordingSpawner>::new(RecordingSpawner)
        .reuse(true)
        .chroot(true)
        .args(vec!["a".to_string(), "b".to_string()])
        .preopen(vec!["/data".to_string()])
        .stdin_mode(StdioMode::Null)
        .stdout_mode(StdioMode::Log)
        .working_dir("/work".to_string())
        .remote_instance("remote".to_string())
        .access_token("token".to_string())
        .build();
    let request = options.spawn::<Request>("prog").unwrap();
    assert_eq!(
        request,
        Request {
            name: "prog".to_string(),
            reuse: true,
            chroot: true,
            args: vec!["a".to_string(), "b".to_string()],
            preopen: vec!["/data".to_string()],
            stdin: StdioMode::Null,
            stdout: StdioMode::Log,
            stderr: StdioMode::Null,
            working_dir: Some("/work".to_string()),
            remote_instance: Some("remote".to_string()),
            access_token: Some("token".to_string()),
        }
    );
}

#[test]
fn builder_defaults() {
    let mut options = NewSpawnBuilder::<Env, RecordingSpawner>::new(RecordingSpawner).build();
    let request = options.spawn::<Request>("p").unwrap();
    assert!(!request.reuse);
    assert!(!request.chroot);
    assert!(request.args.is_empty());
    assert!(request.preopen.is_empty());
    assert_eq!(request.stdin, StdioMode::Null);
    assert_eq!(request.stdout, StdioMode::Null);
    assert_eq!(request.stderr, StdioMode::Null);
    assert_eq!(request.working_dir, None);
    assert_eq!(request.remote_instance, None);
    assert_eq!(request.access_token, None);
}

#[test]
fn existing_environment_supplies_the_settings() {
    let env = Env { args: vec!["x".to_string()] };
    let mut options = SpawnOptions::new(RecordingSpawner, SpawnType::Existing { env });
    let request = options.spawn::<Request>("q").unwrap();
    assert!(request.chroot);
    assert_eq!(request.args, vec!["x".to_string()]);
    assert_eq!(request.stdin, StdioMode::Log);
    assert_eq!(request.stdout, StdioMode::Piped);
    assert_eq!(request.working_dir, Some("/env".to_string()));
}

#[test]
fn unsupported_spawner_refuses_to_spawn() {
    let mut options = unsupported_spawn_new::<Env>().args(vec!["a".to_string()]).build();
    let result: Result<Request, VirtualBusError> = options.spawn("prog");
    assert_eq!(result.err(), Some(VirtualBusError::Unsupported));
    let mut existing = unsupported_spawn_existing(Env { args: vec![] });
    let result: Result<Request, VirtualBusError> = existing.spawn("prog");
    assert_eq!(result.err(), Some(VirtualBusError::Unsupported));
}
