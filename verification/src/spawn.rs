//! Spawning processes on the virtual bus: the builder, the options and their accessors.

use vstd::prelude::*;

use crate::vbus::{BusResult, UnsupportedVirtualBusSpawner, VirtualBusError};
use crate::vfs::StdioMode;

verus! {

/// Starts processes by name, implemented by the embedder. `P` is the type of the spawned
/// process handle.
pub trait VirtualBusSpawner<T, P>: Sized {
    /// What spawning the process `name` with `config` may give (`r`) and leave the spawner
    /// as (`after`), as the implementation defines it; one that defines nothing promises
    /// nothing.
    open spec fn spawn_outcome(
        &self,
        name: Seq<char>,
        config: SpawnOptionsConfig<T>,
        after: Self,
        r: BusResult<P>,
    ) -> bool {
        true
    }

    /// Spawns a new WAPM process by its name
    fn spawn(&mut self, name: &str, config: &SpawnOptionsConfig<T>) -> (r: BusResult<P>)
        ensures
            old(self).spawn_outcome(name@, *config, *final(self), r),
    ;
}

impl<T, P> VirtualBusSpawner<T, P> for UnsupportedVirtualBusSpawner {
    /// Every request fails with `Unsupported`, and the spawner stays as it was.
    open spec fn spawn_outcome(
        &self,
        name: Seq<char>,
        config: SpawnOptionsConfig<T>,
        after: Self,
        r: BusResult<P>,
    ) -> bool {
        &&& r == Err::<P, VirtualBusError>(VirtualBusError::Unsupported)
        &&& after == *self
    }

    /// Refuses to spawn anything: every request fails with `Unsupported`.
    fn spawn(&mut self, _name: &str, _config: &SpawnOptionsConfig<T>) -> (r: BusResult<P>) {
        Err(VirtualBusError::Unsupported)
    }
}

/// What a spawned process runs: a fresh program with its own settings, or an existing
/// environment.
#[derive(Debug, Clone)]
pub enum SpawnType<T> {
    New {
        chroot: bool,
        args: Vec<String>,
        preopen: Vec<String>,
        stdin_mode: StdioMode,
        stdout_mode: StdioMode,
        stderr_mode: StdioMode,
        working_dir: Option<String>,
    },
    Existing { env: T },
}

/// The settings that an existing environment supplies to a spawned process, implemented
/// by the embedder's environment type.
pub trait SpawnEnvironmentIntrinsics {
    fn chroot(&self) -> bool;

    fn args(&self) -> &Vec<String>;

    fn preopen(&self) -> &Vec<String>;

    fn stdin_mode(&self) -> StdioMode;

    fn stdout_mode(&self) -> StdioMode;

    fn stderr_mode(&self) -> StdioMode;

    fn working_dir(&self) -> String;
}

/// The configuration handed to a spawner.
#[derive(Debug, Clone)]
pub struct SpawnOptionsConfig<T> {
    reuse: bool,
    spawn_type: SpawnType<T>,
    remote_instance: Option<String>,
    access_token: Option<String>,
}

/// The view of an optional string as an optional sequence of characters.
pub open spec fn opt_str_view(s: Option<String>) -> Option<Seq<char>> {
    match s {
        Some(x) => Some(x@),
        None => None,
    }
}

impl<T> SpawnOptionsConfig<T> {
    pub closed spec fn spec_reuse(&self) -> bool {
        self.reuse
    }

    pub closed spec fn spec_spawn_type(&self) -> SpawnType<T> {
        self.spawn_type
    }

    pub closed spec fn spec_remote_instance(&self) -> Option<String> {
        self.remote_instance
    }

    pub closed spec fn spec_access_token(&self) -> Option<String> {
        self.access_token
    }

    /// A configuration built from its four parts.
    pub closed spec fn spec_new(
        reuse: bool,
        spawn_type: SpawnType<T>,
        remote_instance: Option<String>,
        access_token: Option<String>,
    ) -> Self {
        SpawnOptionsConfig { reuse, spawn_type, remote_instance, access_token }
    }
}

impl<T> SpawnOptionsConfig<T> {
    /// Whether a new process runs in a changed root; `None` for an existing environment,
    /// which decides for itself.
    pub open spec fn spec_chroot(&self) -> Option<bool> {
        match self.spec_spawn_type() {
            SpawnType::New { chroot, .. } => Some(chroot),
            SpawnType::Existing { .. } => None,
        }
    }

    /// The arguments of a new process; `None` for an existing environment.
    pub open spec fn spec_args(&self) -> Option<Seq<String>> {
        match self.spec_spawn_type() {
            SpawnType::New { args, .. } => Some(args@),
            SpawnType::Existing { .. } => None,
        }
    }

    /// The directories opened for a new process; `None` for an existing environment.
    pub open spec fn spec_preopen(&self) -> Option<Seq<String>> {
        match self.spec_spawn_type() {
            SpawnType::New { preopen, .. } => Some(preopen@),
            SpawnType::Existing { .. } => None,
        }
    }

    /// The standard input of a new process; `None` for an existing environment.
    pub open spec fn spec_stdin_mode(&self) -> Option<StdioMode> {
        match self.spec_spawn_type() {
            SpawnType::New { stdin_mode, .. } => Some(stdin_mode),
            SpawnType::Existing { .. } => None,
        }
    }

    /// The standard output of a new process; `None` for an existing environment.
    pub open spec fn spec_stdout_mode(&self) -> Option<StdioMode> {
        match self.spec_spawn_type() {
            SpawnType::New { stdout_mode, .. } => Some(stdout_mode),
            SpawnType::Existing { .. } => None,
        }
    }

    /// The standard error of a new process; `None` for an existing environment.
    pub open spec fn spec_stderr_mode(&self) -> Option<StdioMode> {
        match self.spec_spawn_type() {
            SpawnType::New { stderr_mode, .. } => Some(stderr_mode),
            SpawnType::Existing { .. } => None,
        }
    }

    /// The working directory of a new process, if one is set; `None` for an existing
    /// environment.
    pub open spec fn spec_working_dir(&self) -> Option<Option<Seq<char>>> {
        match self.spec_spawn_type() {
            SpawnType::New { working_dir, .. } => Some(opt_str_view(working_dir)),
            SpawnType::Existing { .. } => None,
        }
    }
}

impl<T: SpawnEnvironmentIntrinsics> SpawnOptionsConfig<T> {
    pub fn reuse(&self) -> (r: bool)
        ensures
            r == self.spec_reuse(),
    {
        self.reuse
    }

    pub fn spawn_type(&self) -> (r: &SpawnType<T>)
        ensures
            *r == self.spec_spawn_type(),
    {
        &self.spawn_type
    }

    /// The existing environment, when the process reuses one.
    pub fn env(&self) -> (r: Option<&T>)
        ensures
            match self.spec_spawn_type() {
                SpawnType::New { .. } => r is None,
                SpawnType::Existing { env } => r == Some(&env),
            },
    {
        match &self.spawn_type {
            SpawnType::New { .. } => None,
            SpawnType::Existing { env } => Some(env),
        }
    }

    pub fn chroot(&self) -> (r: bool)
        ensures
            self.spec_chroot() matches Some(v) ==> r == v,
    {
        match &self.spawn_type {
            SpawnType::New { chroot, .. } => *chroot,
            SpawnType::Existing { env } => env.chroot(),
        }
    }

    pub fn args(&self) -> (r: &Vec<String>)
        ensures
            self.spec_args() matches Some(v) ==> r@ == v,
    {
        match &self.spawn_type {
            SpawnType::New { args, .. } => args,
            SpawnType::Existing { env } => env.args(),
        }
    }

    pub fn preopen(&self) -> (r: &Vec<String>)
        ensures
            self.spec_preopen() matches Some(v) ==> r@ == v,
    {
        match &self.spawn_type {
            SpawnType::New { preopen, .. } => preopen,
            SpawnType::Existing { env } => env.preopen(),
        }
    }

    pub fn stdin_mode(&self) -> (r: StdioMode)
        ensures
            self.spec_stdin_mode() matches Some(v) ==> r == v,
    {
        match &self.spawn_type {
            SpawnType::New { stdin_mode, .. } => *stdin_mode,
            SpawnType::Existing { env } => env.stdin_mode(),
        }
    }

    pub fn stdout_mode(&self) -> (r: StdioMode)
        ensures
            self.spec_stdout_mode() matches Some(v) ==> r == v,
    {
        match &self.spawn_type {
            SpawnType::New { stdout_mode, .. } => *stdout_mode,
            SpawnType::Existing { env } => env.stdout_mode(),
        }
    }

    pub fn stderr_mode(&self) -> (r: StdioMode)
        ensures
            self.spec_stderr_mode() matches Some(v) ==> r == v,
    {
        match &self.spawn_type {
            SpawnType::New { stderr_mode, .. } => *stderr_mode,
            SpawnType::Existing { env } => env.stderr_mode(),
        }
    }

    pub fn working_dir(&self) -> (r: Option<String>)
        ensures
            self.spec_working_dir() matches Some(v) ==> opt_str_view(r) == v,
    {
        match &self.spawn_type {
            SpawnType::New { working_dir, .. } => match working_dir {
                Some(a) => Some(a.clone()),
                None => None,
            },
            SpawnType::Existing { env } => Some(env.working_dir()),
        }
    }

    pub fn remote_instance(&self) -> (r: Option<&str>)
        ensures
            match self.spec_remote_instance() {
                Some(s) => r matches Some(x) && x@ == s@,
                None => r is None,
            },
    {
        match &self.remote_instance {
            Some(s) => Some(s.as_str()),
            None => None,
        }
    }

    pub fn access_token(&self) -> (r: Option<&str>)
        ensures
            match self.spec_access_token() {
                Some(s) => r matches Some(x) && x@ == s@,
                None => r is None,
            },
    {
        match &self.access_token {
            Some(s) => Some(s.as_str()),
            None => None,
        }
    }
}

/// A spawner together with the configuration it will be asked to spawn with.
pub struct SpawnOptions<T, S> {
    spawner: S,
    conf: SpawnOptionsConfig<T>,
}

impl<T, S> SpawnOptions<T, S> {
    pub closed spec fn spec_spawner(&self) -> S {
        self.spawner
    }

    pub closed spec fn spec_conf(&self) -> SpawnOptionsConfig<T> {
        self.conf
    }

    /// Options for `spawn_type` with no reuse, remote instance or access token.
    pub fn new(spawner: S, spawn_type: SpawnType<T>) -> (r: Self)
        ensures
            r.spec_spawner() == spawner,
            r.spec_conf() == SpawnOptionsConfig::spec_new(false, spawn_type, None, None),
    {
        SpawnOptions {
            spawner,
            conf: SpawnOptionsConfig {
                reuse: false,
                spawn_type,
                remote_instance: None,
                access_token: None,
            },
        }
    }

    /// Replaces the configuration.
    pub fn options(&mut self, options: SpawnOptionsConfig<T>) -> (r: &mut Self)
        ensures
            r.spec_conf() == options,
            r.spec_spawner() == old(self).spec_spawner(),
            *final(self) == *final(r),
    {
        self.conf = options;
        self
    }

    /// Spawns a new bus instance by its reference name, with this configuration.
    /// The spawner is handed `name` and this configuration; what it answers is given back,
    /// and the configuration stays as it was.
    pub fn spawn<P>(&mut self, name: &str) -> (r: BusResult<P>) where S: VirtualBusSpawner<T, P>
        ensures
            old(self).spec_spawner().spawn_outcome(
                name@,
                old(self).spec_conf(),
                final(self).spec_spawner(),
                r,
            ),
            final(self).spec_conf() == old(self).spec_conf(),
    {
        self.spawner.spawn(name, &self.conf)
    }
}

/// The settings collected by a [`NewSpawnBuilder`].
pub struct NewSpawnSettings {
    pub reuse: bool,
    pub chroot: bool,
    pub args: Seq<String>,
    pub preopen: Seq<String>,
    pub stdin_mode: StdioMode,
    pub stdout_mode: StdioMode,
    pub stderr_mode: StdioMode,
    pub working_dir: Option<Seq<char>>,
    pub remote_instance: Option<Seq<char>>,
    pub access_token: Option<Seq<char>>,
}

/// Collects the settings of a brand new process, then turns them into [`SpawnOptions`].
pub struct NewSpawnBuilder<T, S> {
    spawner: S,
    reuse: bool,
    chroot: bool,
    args: Vec<String>,
    preopen: Vec<String>,
    stdin_mode: StdioMode,
    stdout_mode: StdioMode,
    stderr_mode: StdioMode,
    working_dir: Option<String>,
    remote_instance: Option<String>,
    access_token: Option<String>,
    phantom: core::marker::PhantomData<T>,
}

impl<T, S> NewSpawnBuilder<T, S> {
    pub closed spec fn spec_spawner(&self) -> S {
        self.spawner
    }

    /// The settings collected so far.
    pub closed spec fn settings(&self) -> NewSpawnSettings {
        NewSpawnSettings {
            reuse: self.reuse,
            chroot: self.chroot,
            args: self.args@,
            preopen: self.preopen@,
            stdin_mode: self.stdin_mode,
            stdout_mode: self.stdout_mode,
            stderr_mode: self.stderr_mode,
            working_dir: opt_str_view(self.working_dir),
            remote_instance: opt_str_view(self.remote_instance),
            access_token: opt_str_view(self.access_token),
        }
    }

    /// The options that [`NewSpawnBuilder::build`] makes of a builder.
    pub closed spec fn spec_build(&self) -> SpawnOptions<T, S> {
        SpawnOptions {
            spawner: self.spawner,
            conf: SpawnOptionsConfig {
                reuse: self.reuse,
                spawn_type: SpawnType::New {
                    chroot: self.chroot,
                    args: self.args,
                    preopen: self.preopen,
                    stdin_mode: self.stdin_mode,
                    stdout_mode: self.stdout_mode,
                    stderr_mode: self.stderr_mode,
                    working_dir: self.working_dir,
                },
                remote_instance: self.remote_instance,
                access_token: self.access_token,
            },
        }
    }

    /// A builder with no arguments, no preopened directories, null standard streams and
    /// nothing else set.
    pub fn new(spawner: S) -> (r: Self)
        ensures
            r.spec_spawner() == spawner,
            r.settings() == (NewSpawnSettings {
                reuse: false,
                chroot: false,
                args: Seq::<String>::empty(),
                preopen: Seq::<String>::empty(),
                stdin_mode: StdioMode::Null,
                stdout_mode: StdioMode::Null,
                stderr_mode: StdioMode::Null,
                working_dir: None,
                remote_instance: None,
                access_token: None,
            }),
    {
        NewSpawnBuilder {
            spawner,
            reuse: false,
            chroot: false,
            args: Vec::new(),
            preopen: Vec::new(),
            stdin_mode: StdioMode::Null,
            stdout_mode: StdioMode::Null,
            stderr_mode: StdioMode::Null,
            working_dir: None,
            remote_instance: None,
            access_token: None,
            phantom: core::marker::PhantomData,
        }
    }

    pub fn reuse(self, reuse: bool) -> (r: Self)
        ensures
            r.spec_spawner() == self.spec_spawner(),
            r.settings() == (NewSpawnSettings { reuse, ..self.settings() }),
    {
        NewSpawnBuilder { reuse: reuse, ..self }
    }

    pub fn chroot(self, chroot: bool) -> (r: Self)
        ensures
            r.spec_spawner() == self.spec_spawner(),
            r.settings() == (NewSpawnSettings { chroot, ..self.settings() }),
    {
        NewSpawnBuilder { chroot: chroot, ..self }
    }

    pub fn args(self, args: Vec<String>) -> (r: Self)
        ensures
            r.spec_spawner() == self.spec_spawner(),
            r.settings() == (NewSpawnSettings { args: args@, ..self.settings() }),
    {
        NewSpawnBuilder { args: args, ..self }
    }

    pub fn preopen(self, preopen: Vec<String>) -> (r: Self)
        ensures
            r.spec_spawner() == self.spec_spawner(),
            r.settings() == (NewSpawnSettings { preopen: preopen@, ..self.settings() }),
    {
        NewSpawnBuilder { preopen: preopen, ..self }
    }

    pub fn working_dir(self, working_dir: String) -> (r: Self)
        ensures
            r.spec_spawner() == self.spec_spawner(),
            r.settings() == (NewSpawnSettings { working_dir: Some(working_dir@), ..self.settings() }),
    {
        NewSpawnBuilder { working_dir: Some(working_dir), ..self }
    }

    pub fn stdin_mode(self, stdin_mode: StdioMode) -> (r: Self)
        ensures
            r.spec_spawner() == self.spec_spawner(),
            r.settings() == (NewSpawnSettings { stdin_mode, ..self.settings() }),
    {
        NewSpawnBuilder { stdin_mode: stdin_mode, ..self }
    }

    pub fn stdout_mode(self, stdout_mode: StdioMode) -> (r: Self)
        ensures
            r.spec_spawner() == self.spec_spawner(),
            r.settings() == (NewSpawnSettings { stdout_mode, ..self.settings() }),
    {
        NewSpawnBuilder { stdout_mode: stdout_mode, ..self }
    }

    pub fn stderr_mode(self, stderr_mode: StdioMode) -> (r: Self)
        ensures
            r.spec_spawner() == self.spec_spawner(),
            r.settings() == (NewSpawnSettings { stderr_mode, ..self.settings() }),
    {
        NewSpawnBuilder { stderr_mode: stderr_mode, ..self }
    }

    pub fn remote_instance(self, remote_instance: String) -> (r: Self)
        ensures
            r.spec_spawner() == self.spec_spawner(),
            r.settings() == (NewSpawnSettings {
                remote_instance: Some(remote_instance@),
                ..self.settings()
            }),
    {
        NewSpawnBuilder { remote_instance: Some(remote_instance), ..self }
    }

    pub fn access_token(self, access_token: String) -> (r: Self)
        ensures
            r.spec_spawner() == self.spec_spawner(),
            r.settings() == (NewSpawnSettings { access_token: Some(access_token@), ..self.settings() }),
    {
        NewSpawnBuilder { access_token: Some(access_token), ..self }
    }

    /// Turns the collected settings into options for a brand new process.
    pub fn build(self) -> (r: SpawnOptions<T, S>)
        ensures
            r == self.spec_build(),
    {
        let mut ret = SpawnOptions::new(
            self.spawner,
            SpawnType::New {
                chroot: self.chroot,
                args: self.args,
                preopen: self.preopen,
                stdin_mode: self.stdin_mode,
                stdout_mode: self.stdout_mode,
                stderr_mode: self.stderr_mode,
                working_dir: self.working_dir,
            },
        );
        ret.conf.reuse = self.reuse;
        ret.conf.access_token = self.access_token;
        ret.conf.remote_instance = self.remote_instance;
        ret
    }
}

/// The defaults of a bus that supports nothing: a new process is built around a spawner
/// that refuses every request.
pub fn unsupported_spawn_new<T>() -> (r: NewSpawnBuilder<T, UnsupportedVirtualBusSpawner>)
    ensures
        r.settings() == (NewSpawnSettings {
            reuse: false,
            chroot: false,
            args: Seq::<String>::empty(),
            preopen: Seq::<String>::empty(),
            stdin_mode: StdioMode::Null,
            stdout_mode: StdioMode::Null,
            stderr_mode: StdioMode::Null,
            working_dir: None,
            remote_instance: None,
            access_token: None,
        }),
{
    NewSpawnBuilder::new(UnsupportedVirtualBusSpawner {  })
}

/// The defaults of a bus that supports nothing: an existing environment is run by a
/// spawner that refuses every request.
pub fn unsupported_spawn_existing<T>(env: T) -> (r: SpawnOptions<T, UnsupportedVirtualBusSpawner>)
    ensures
        r.spec_conf() == SpawnOptionsConfig::spec_new(false, SpawnType::Existing { env }, None, None),
{
    SpawnOptions::new(UnsupportedVirtualBusSpawner {  }, SpawnType::Existing { env })
}

/// Building new-process options keeps every setting: the accessors of the configuration
/// that [`NewSpawnBuilder::build`] produces give back what was set on the builder.
pub proof fn lemma_build_keeps_settings<T, S>(b: NewSpawnBuilder<T, S>)
    ensures
        ({
            let c = b.spec_build().spec_conf();
            let s = b.settings();
            &&& c.spec_reuse() == s.reuse
            &&& c.spec_chroot() == Some(s.chroot)
            &&& c.spec_args() == Some(s.args)
            &&& c.spec_preopen() == Some(s.preopen)
            &&& c.spec_stdin_mode() == Some(s.stdin_mode)
            &&& c.spec_stdout_mode() == Some(s.stdout_mode)
            &&& c.spec_stderr_mode() == Some(s.stderr_mode)
            &&& c.spec_working_dir() == Some(s.working_dir)
            &&& opt_str_view(c.spec_remote_instance()) == s.remote_instance
            &&& opt_str_view(c.spec_access_token()) == s.access_token
            &&& b.spec_build().spec_spawner() == b.spec_spawner()
        }),
{
}

/// A bus that supports nothing refuses every spawn: whatever the name and the options, a
/// spawn through options built around its spawner answers `Unsupported`.
pub proof fn lemma_unsupported_spawn_refused<T, P>(
    o: SpawnOptions<T, UnsupportedVirtualBusSpawner>,
    after: SpawnOptions<T, UnsupportedVirtualBusSpawner>,
    name: Seq<char>,
    r: BusResult<P>,
)
    requires
        o.spec_spawner().spawn_outcome(name, o.spec_conf(), after.spec_spawner(), r),
    ensures
        r == Err::<P, VirtualBusError>(VirtualBusError::Unsupported),
{
}

} // verus!
