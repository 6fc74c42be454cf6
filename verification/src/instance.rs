//! Instances of WebAssembly modules: why instantiating one fails, how the exports of an
//! instance are looked up, and how its threads are numbered.

use vstd::prelude::*;
use vstd::string::*;

use crate::text::str_eq;

verus! {

/// An error raised while the start function of a module ran.
#[derive(Debug, Clone)]
pub struct RuntimeError {
    pub message: String,
}

/// An error raised while the host environment of an import was initialized.
#[derive(Debug, Clone)]
pub struct HostEnvInitError {
    pub message: String,
}

/// An error while instantiating a module: linking the imports, running the start function,
/// or initializing the host environments.
#[derive(Debug)]
pub enum InstantiationError {
    /// Linking failed during instantiation.
    Link(String),
    /// The start function raised an error.
    Start(RuntimeError),
    /// Initializing a host environment failed.
    HostEnvInitialization(HostEnvInitError),
}

/// The text of an instantiation error: `Link error: ` and the message for a link error, the
/// message of the underlying error otherwise.
pub open spec fn instantiation_error_text(e: InstantiationError) -> Seq<char> {
    match e {
        InstantiationError::Link(m) => "Link error: "@ + m@,
        InstantiationError::Start(r) => r.message@,
        InstantiationError::HostEnvInitialization(h) => h.message@,
    }
}

impl InstantiationError {
    /// The text of the error.
    pub fn message(&self) -> (r: String)
        ensures
            r@ == instantiation_error_text(*self),
    {
        match self {
            InstantiationError::Link(m) => {
                let mut s = String::from_str("Link error: ");
                s.append(m.as_str());
                s
            },
            InstantiationError::Start(r) => r.message.clone(),
            InstantiationError::HostEnvInitialization(h) => h.message.clone(),
        }
    }
}

/// The kind of an external value.
#[derive(Debug, Clone, Copy, PartialEq, Eq, Structural)]
pub enum ExternKind {
    Function,
    Global,
    Table,
    Memory,
}

/// An external value of an instance: its kind and the handle that names it.
#[derive(Debug, Clone, Copy, PartialEq, Eq, Structural)]
pub struct Extern {
    pub kind: ExternKind,
    pub handle: u32,
}

/// Why an export could not be had.
#[derive(Debug, Clone)]
pub enum ExportError {
    /// The value exists but is of another kind.
    IncompatibleType,
    /// There is no value by this name.
    Missing(String),
}

/// The first value named `name`.
pub open spec fn first_named(exports: Seq<(String, Extern)>, name: Seq<char>) -> Option<Extern>
    decreases exports.len(),
{
    if exports.len() == 0 {
        None
    } else {
        match first_named(exports.drop_last(), name) {
            Some(e) => Some(e),
            None => if exports.last().0@ == name {
                Some(exports.last().1)
            } else {
                None
            },
        }
    }
}

/// The first memory among imports.
pub open spec fn first_memory(imports: Seq<Extern>) -> Option<Extern>
    decreases imports.len(),
{
    if imports.len() == 0 {
        None
    } else {
        match first_memory(imports.drop_last()) {
            Some(e) => Some(e),
            None => if imports.last().kind == ExternKind::Memory {
                Some(imports.last())
            } else {
                None
            },
        }
    }
}

/// The value of kind `kind` that `name` resolves to: the export of that name, or, for a
/// `memory` the instance does not export, the first memory it imports.
pub open spec fn resolution(
    exports: Seq<(String, Extern)>,
    imports: Seq<Extern>,
    name: Seq<char>,
    kind: ExternKind,
) -> Result<Extern, Option<Seq<char>>> {
    match first_named(exports, name) {
        Some(e) => if e.kind == kind {
            Ok(e)
        } else {
            Err(None)
        },
        None => if name == "memory"@ {
            match first_memory(imports) {
                Some(m) => if kind == ExternKind::Memory {
                    Ok(m)
                } else {
                    Err(None)
                },
                None => Err(Some("memory"@)),
            }
        } else {
            Err(Some(name))
        },
    }
}

/// The part of an instance that its users reach: its exports, its imports, and the counter
/// that numbers its threads.
#[derive(Debug)]
pub struct Instance {
    exports: Vec<(String, Extern)>,
    imports: Vec<Extern>,
    thread_seed: u32,
}

fn find_named(exports: &Vec<(String, Extern)>, name: &str) -> (r: Option<Extern>)
    ensures
        r == first_named(exports@, name@),
{
    let mut found: Option<Extern> = None;
    let mut i: usize = 0;
    while i < exports.len()
        invariant
            i <= exports@.len(),
            found == first_named(exports@.subrange(0, i as int), name@),
        decreases exports.len() - i,
    {
        assert(exports@.subrange(0, i + 1).drop_last() =~= exports@.subrange(0, i as int));
        if found.is_none() && str_eq(exports[i].0.as_str(), name) {
            found = Some(exports[i].1);
        }
        i = i + 1;
    }
    assert(exports@.subrange(0, exports@.len() as int) =~= exports@);
    found
}

fn find_memory(imports: &Vec<Extern>) -> (r: Option<Extern>)
    ensures
        r == first_memory(imports@),
{
    let mut found: Option<Extern> = None;
    let mut i: usize = 0;
    while i < imports.len()
        invariant
            i <= imports@.len(),
            found == first_memory(imports@.subrange(0, i as int)),
        decreases imports.len() - i,
    {
        assert(imports@.subrange(0, i + 1).drop_last() =~= imports@.subrange(0, i as int));
        if found.is_none() && imports[i].kind == ExternKind::Memory {
            found = Some(imports[i]);
        }
        i = i + 1;
    }
    assert(imports@.subrange(0, imports@.len() as int) =~= imports@);
    found
}

impl Instance {
    /// The exports, by name.
    pub closed spec fn spec_exports(&self) -> Seq<(String, Extern)> {
        self.exports@
    }

    /// The imports.
    pub closed spec fn spec_imports(&self) -> Seq<Extern> {
        self.imports@
    }

    /// How many threads have been created.
    pub closed spec fn spec_thread_seed(&self) -> u32 {
        self.thread_seed
    }

    /// What creating a thread gives and leaves: the number after the last one given, now the
    /// last one given.
    pub open spec fn new_thread_post(self, after: Self, r: u32) -> bool {
        &&& r == self.spec_thread_seed() + 1
        &&& after.spec_thread_seed() == r
        &&& after.spec_exports() == self.spec_exports()
        &&& after.spec_imports() == self.spec_imports()
    }

    /// An instance with these exports and imports and no thread created yet.
    pub fn new(exports: Vec<(String, Extern)>, imports: Vec<Extern>) -> (r: Self)
        ensures
            r.spec_exports() == exports@,
            r.spec_imports() == imports@,
            r.spec_thread_seed() == 0,
    {
        Instance { exports, imports, thread_seed: 0 }
    }

    /// Resolves `name` to a value of kind `kind`: the export of that name when it has that
    /// kind, or, when the instance exports no `memory`, the first memory it imports. A value
    /// of another kind gives `IncompatibleType`; a name with nothing behind it gives `Missing`.
    pub fn resolve(&self, name: &str, kind: ExternKind) -> (r: Result<Extern, ExportError>)
        ensures
            match resolution(self.spec_exports(), self.spec_imports(), name@, kind) {
                Ok(e) => r == Ok::<Extern, ExportError>(e),
                Err(None) => r matches Err(ExportError::IncompatibleType),
                Err(Some(missing)) => r matches Err(ExportError::Missing(m)) && m@ == missing,
            },
    {
        match find_named(&self.exports, name) {
            Some(e) => if e.kind == kind {
                Ok(e)
            } else {
                Err(ExportError::IncompatibleType)
            },
            None => if str_eq(name, "memory") {
                match find_memory(&self.imports) {
                    Some(m) => if kind == ExternKind::Memory {
                        Ok(m)
                    } else {
                        Err(ExportError::IncompatibleType)
                    },
                    None => Err(ExportError::Missing(String::from_str("memory"))),
                }
            } else {
                Err(ExportError::Missing(name.to_owned()))
            },
        }
    }

    /// Creates a thread and gives back its number: one more than the number of threads
    /// created before it.
    pub fn new_thread(&mut self) -> (r: u32)
        requires
            old(self).spec_thread_seed() < u32::MAX,
        ensures
            old(self).new_thread_post(*final(self), r),
    {
        self.thread_seed = self.thread_seed + 1;
        self.thread_seed
    }
}

/// Threads of an instance get increasing numbers, so no two get the same one.
pub proof fn lemma_thread_numbers_increase(
    i0: Instance,
    i1: Instance,
    i2: Instance,
    first: u32,
    second: u32,
)
    requires
        i0.new_thread_post(i1, first),
        i1.new_thread_post(i2, second),
    ensures
        first < second,
{
}

/// Counted from an instance with no thread created yet, the threads are numbered 1, 2, 3,
/// ... in the order they are created: the `k`-th creation (from 0) gives `k + 1`.
pub proof fn lemma_nth_thread_number(states: Seq<Instance>, numbers: Seq<u32>)
    requires
        states.len() == numbers.len() + 1,
        states[0].spec_thread_seed() == 0,
        forall|k: int|
            0 <= k < numbers.len() ==> #[trigger] states[k].new_thread_post(states[k + 1], numbers[k]),
    ensures
        forall|k: int| 0 <= k < numbers.len() ==> numbers[k] == k + 1,
    decreases numbers.len(),
{
    if numbers.len() > 0 {
        let n = (numbers.len() - 1) as int;
        lemma_nth_thread_number(states.take(n + 1), numbers.take(n));
        assert(states.take(n + 1)[0] == states[0]);
        assert forall|k: int| 0 <= k < n implies #[trigger] states.take(n + 1)[k].new_thread_post(
            states.take(n + 1)[k + 1],
            numbers.take(n)[k],
        ) by {
            assert(states[k].new_thread_post(states[k + 1], numbers[k]));
        }
        assert forall|k: int| 0 <= k < numbers.len() implies numbers[k] == k + 1 by {
            if k < n {
                assert(numbers.take(n)[k] == numbers[k]);
            } else {
                assert(states[n].new_thread_post(states[n + 1], numbers[n]));
                if n > 0 {
                    let m = n - 1;
                    assert(states[m].new_thread_post(states[m + 1], numbers[m]));
                    assert(numbers.take(n)[m] == numbers[m]);
                }
            }
        }
    }
}

} // verus!
