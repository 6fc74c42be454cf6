//! The WASI options of the `run` command and the state a module is started with.

use vstd::prelude::*;
use vstd::string::*;
use vstd::utf8::encode_utf8;

use crate::text::{chars_of, str_eq, string_from_chars};

verus! {

/// The position of the first `c` in `s`.
pub open spec fn first_index_of(s: Seq<char>, c: char) -> Option<int>
    decreases s.len(),
{
    if s.len() == 0 {
        None
    } else {
        match first_index_of(s.drop_last(), c) {
            Some(i) => Some(i),
            None => if s.last() == c {
                Some(s.len() - 1)
            } else {
                None
            },
        }
    }
}

proof fn lemma_first_index_bounds(s: Seq<char>, c: char)
    ensures
        match first_index_of(s, c) {
            Some(i) => 0 <= i < s.len() && s[i] == c && forall|j: int| 0 <= j < i ==> s[j] != c,
            None => forall|j: int| 0 <= j < s.len() ==> s[j] != c,
        },
    decreases s.len(),
{
    if s.len() > 0 {
        let t = s.drop_last();
        lemma_first_index_bounds(t, c);
        assert(forall|j: int| 0 <= j < t.len() ==> t[j] == s[j]);
        if first_index_of(t, c) is None && s.last() != c {
            assert forall|j: int| 0 <= j < s.len() implies s[j] != c by {
                if j < t.len() {
                    assert(t[j] == s[j]);
                }
            }
        }
    }
}

/// `s` split around its first `c`, if it has one.
pub open spec fn split_once_spec(s: Seq<char>, c: char) -> Option<(Seq<char>, Seq<char>)> {
    match first_index_of(s, c) {
        Some(i) => Some((s.subrange(0, i), s.subrange(i + 1, s.len() as int))),
        None => None,
    }
}

/// Splits `s` around its first `c`, as `str::split_once` does with a one-character pattern.
pub fn split_once_char(s: &str, c: char) -> (r: Option<(String, String)>)
    ensures
        match r {
            Some((a, b)) => split_once_spec(s@, c) == Some((a@, b@)),
            None => split_once_spec(s@, c) is None,
        },
{
    let cs = chars_of(s);
    let n = cs.len();
    let mut i: usize = 0;
    while i < n
        invariant
            n == cs@.len(),
            cs@ == s@,
            i <= n,
            forall|j: int| 0 <= j < i ==> cs@[j] != c,
        decreases n - i,
    {
        if cs[i] == c {
            let mut left: Vec<char> = Vec::new();
            let mut right: Vec<char> = Vec::new();
            let mut k: usize = 0;
            while k < i
                invariant
                    k <= i,
                    i < n,
                    n == cs@.len(),
                    left@ == cs@.subrange(0, k as int),
                decreases i - k,
            {
                left.push(cs[k]);
                assert(cs@.subrange(0, k + 1) =~= cs@.subrange(0, k as int).push(cs@[k as int]));
                k = k + 1;
            }
            k = i + 1;
            while k < n
                invariant
                    i < k <= n,
                    n == cs@.len(),
                    right@ == cs@.subrange(i + 1, k as int),
                decreases n - k,
            {
                right.push(cs[k]);
                assert(cs@.subrange(i + 1, k + 1) =~= cs@.subrange(i + 1, k as int).push(
                    cs@[k as int],
                ));
                k = k + 1;
            }
            proof {
                lemma_first_index_bounds(s@, c);
                match first_index_of(s@, c) {
                    Some(x) => {
                        assert(x == i);
                    },
                    None => {
                        assert(s@[i as int] == c);
                    },
                }
            }
            return Some((string_from_chars(&left), string_from_chars(&right)));
        }
        i = i + 1;
    }
    proof {
        lemma_first_index_bounds(s@, c);
        if first_index_of(s@, c) is Some {
            let x = first_index_of(s@, c)->0;
            assert(s@[x] == c);
        }
    }
    None
}

/// Splits `s` around its first `=`, as `str::split_once("=")` does.
pub fn split_once_eq(s: &str) -> (r: Option<(String, String)>)
    ensures
        match r {
            Some((a, b)) => split_once_spec(s@, '=') == Some((a@, b@)),
            None => split_once_spec(s@, '=') is None,
        },
{
    split_once_char(s, '=')
}

/// The map built from pairs inserted in order: a later value for a key replaces an earlier
/// one.
pub open spec fn pairs_map(pairs: Seq<(Seq<char>, Seq<char>)>) -> Map<Seq<char>, Seq<char>>
    decreases pairs.len(),
{
    if pairs.len() == 0 {
        Map::empty()
    } else {
        pairs_map(pairs.drop_last()).insert(pairs.last().0, pairs.last().1)
    }
}

/// The texts of a sequence of pairs of strings.
pub open spec fn string_pairs(v: Seq<(String, String)>) -> Seq<(Seq<char>, Seq<char>)> {
    v.map_values(|p: (String, String)| (p.0@, p.1@))
}

/// Whether no key occurs twice.
pub open spec fn distinct_keys(pairs: Seq<(Seq<char>, Seq<char>)>) -> bool {
    forall|i: int, j: int| 0 <= i < j < pairs.len() ==> pairs[i].0 != pairs[j].0
}

proof fn lemma_pairs_map_keys(pairs: Seq<(Seq<char>, Seq<char>)>, k: Seq<char>)
    ensures
        pairs_map(pairs).dom().contains(k) <==> exists|i: int| 0 <= i < pairs.len() && pairs[i].0 == k,
    decreases pairs.len(),
{
    if pairs.len() > 0 {
        lemma_pairs_map_keys(pairs.drop_last(), k);
        if pairs_map(pairs).dom().contains(k) && pairs.last().0 != k {
            let i = choose|i: int| 0 <= i < pairs.len() - 1 && pairs.drop_last()[i].0 == k;
            assert(pairs[i].0 == k);
        }
        if exists|i: int| 0 <= i < pairs.len() && pairs[i].0 == k {
            let i = choose|i: int| 0 <= i < pairs.len() && pairs[i].0 == k;
            if i < pairs.len() - 1 {
                assert(pairs.drop_last()[i].0 == k);
            }
        }
    }
}

proof fn lemma_pairs_map_update(pairs: Seq<(Seq<char>, Seq<char>)>, j: int, v: Seq<char>)
    requires
        0 <= j < pairs.len(),
        distinct_keys(pairs),
    ensures
        pairs_map(pairs.update(j, (pairs[j].0, v))) == pairs_map(pairs).insert(pairs[j].0, v),
    decreases pairs.len(),
{
    let k = pairs[j].0;
    let upd = pairs.update(j, (k, v));
    if j == pairs.len() - 1 {
        assert(upd.drop_last() =~= pairs.drop_last());
        lemma_pairs_map_keys(pairs.drop_last(), k);
        assert(pairs_map(pairs).insert(k, v) =~= pairs_map(pairs.drop_last()).insert(k, v));
    } else {
        assert(upd.drop_last() =~= pairs.drop_last().update(j, (k, v)));
        lemma_pairs_map_update(pairs.drop_last(), j, v);
        assert(pairs.last().0 != k);
        assert(pairs_map(upd) =~= pairs_map(pairs).insert(k, v));
    }
}

/// Builds the atom map from `NAME=ATOM` entries: each entry split at its first `=`, a later
/// entry for a name replacing an earlier one. Each name appears once, in the order of its
/// first entry.
pub fn atom_map(map_atoms: &Vec<String>) -> (r: Vec<(String, String)>)
    requires
        forall|i: int| 0 <= i < map_atoms@.len() ==> split_once_spec(map_atoms@[i]@, '=') is Some,
    ensures
        distinct_keys(string_pairs(r@)),
        pairs_map(string_pairs(r@)) == pairs_map(
            map_atoms@.map_values(|a: String| split_once_spec(a@, '=')->0),
        ),
{
    let ghost split = map_atoms@.map_values(|a: String| split_once_spec(a@, '=')->0);
    let mut out: Vec<(String, String)> = Vec::new();
    let mut i: usize = 0;
    assert(string_pairs(out@) =~= Seq::<(Seq<char>, Seq<char>)>::empty());
    assert(split.subrange(0, 0) =~= Seq::<(Seq<char>, Seq<char>)>::empty());
    while i < map_atoms.len()
        invariant
            i <= map_atoms@.len(),
            split == map_atoms@.map_values(|a: String| split_once_spec(a@, '=')->0),
            forall|j: int| 0 <= j < map_atoms@.len() ==> split_once_spec(map_atoms@[j]@, '=') is Some,
            distinct_keys(string_pairs(out@)),
            pairs_map(string_pairs(out@)) == pairs_map(split.subrange(0, i as int)),
        decreases map_atoms.len() - i,
    {
        let (name, atom) = match split_once_eq(map_atoms[i].as_str()) {
            Some(p) => p,
            None => {
                assert(false);
                return out;
            },
        };
        assert(split.subrange(0, i + 1).drop_last() =~= split.subrange(0, i as int));
        assert(split.subrange(0, i + 1).last() == (name@, atom@));
        let ghost before = string_pairs(out@);
        let mut j: usize = 0;
        let mut found = false;
        while j < out.len() && !found
            invariant
                j <= out@.len(),
                found ==> j < out@.len() && out@[j as int].0@ == name@,
                !found ==> forall|x: int| 0 <= x < j ==> out@[x].0@ != name@,
            decreases out.len() - j + (if found {
                0int
            } else {
                1int
            }),
        {
            if str_eq(out[j].0.as_str(), name.as_str()) {
                found = true;
            } else {
                j = j + 1;
            }
        }
        if found {
            proof {
                lemma_pairs_map_update(before, j as int, atom@);
            }
            let key = out[j].0.clone();
            out.set(j, (key, atom));
            assert(string_pairs(out@) =~= before.update(j as int, (name@, atom@)));
        } else {
            out.push((name, atom));
            assert(string_pairs(out@) =~= before.push((name@, atom@)));
            assert(string_pairs(out@).drop_last() =~= before);
        }
        i = i + 1;
    }
    assert(split.subrange(0, map_atoms@.len() as int) =~= split);
    out
}

/// The texts of a sequence of strings.
pub open spec fn string_texts(v: Seq<String>) -> Seq<Seq<char>> {
    v.map_values(|s: String| s@)
}

/// A copy of a list of strings.
pub fn clone_strings(v: &Vec<String>) -> (r: Vec<String>)
    ensures
        string_texts(r@) == string_texts(v@),
{
    let mut out: Vec<String> = Vec::new();
    let mut i: usize = 0;
    while i < v.len()
        invariant
            i <= v@.len(),
            string_texts(out@) == string_texts(v@.subrange(0, i as int)),
        decreases v.len() - i,
    {
        let ghost before = out@;
        out.push(v[i].clone());
        assert(out@ =~= before.push(v@[i as int]));
        assert(v@.subrange(0, i + 1) =~= v@.subrange(0, i as int).push(v@[i as int]));
        assert(string_texts(out@) =~= string_texts(before).push(v@[i as int]@));
        assert(string_texts(out@) =~= string_texts(v@.subrange(0, i + 1)));
        i = i + 1;
    }
    assert(v@.subrange(0, v@.len() as int) =~= v@);
    out
}

/// A copy of a list of pairs of strings.
pub fn clone_string_pairs(v: &Vec<(String, String)>) -> (r: Vec<(String, String)>)
    ensures
        string_pairs(r@) == string_pairs(v@),
{
    let mut out: Vec<(String, String)> = Vec::new();
    let mut i: usize = 0;
    while i < v.len()
        invariant
            i <= v@.len(),
            string_pairs(out@) == string_pairs(v@.subrange(0, i as int)),
        decreases v.len() - i,
    {
        let ghost before = out@;
        out.push((v[i].0.clone(), v[i].1.clone()));
        assert(v@.subrange(0, i + 1) =~= v@.subrange(0, i as int).push(v@[i as int]));
        assert(string_pairs(out@) =~= string_pairs(before).push((v@[i as int].0@, v@[i as int].1@)));
        assert(string_pairs(out@) =~= string_pairs(v@.subrange(0, i + 1)));
        i = i + 1;
    }
    assert(v@.subrange(0, v@.len() as int) =~= v@);
    out
}

/// The WASI options of the `run` command.
#[derive(Debug)]
pub struct Wasi {
    /// Directories opened for the module before it starts.
    pub pre_opened_directories: Vec<String>,
    /// Host directories mapped to another location for the module: guest, then host.
    pub mapped_dirs: Vec<(String, String)>,
    /// Environment variables passed to the module.
    pub env_vars: Vec<(String, String)>,
    /// Other containers the module depends on.
    pub inherits: Vec<String>,
    /// Injected atoms, each as `NAME=ATOM`.
    pub map_atoms: Vec<String>,
    /// Allow modules to import several WASI versions without a warning.
    pub allow_multiple_wasi_versions: bool,
    /// Require modules to import one WASI version only.
    pub deny_multiple_wasi_versions: bool,
}

impl Default for Wasi {
    fn default() -> (r: Self)
        ensures
            r.pre_opened_directories@.len() == 0,
            r.mapped_dirs@.len() == 0,
            r.env_vars@.len() == 0,
            r.inherits@.len() == 0,
            r.map_atoms@.len() == 0,
            !r.allow_multiple_wasi_versions,
            !r.deny_multiple_wasi_versions,
    {
        Wasi {
            pre_opened_directories: Vec::new(),
            mapped_dirs: Vec::new(),
            env_vars: Vec::new(),
            inherits: Vec::new(),
            map_atoms: Vec::new(),
            allow_multiple_wasi_versions: false,
            deny_multiple_wasi_versions: false,
        }
    }
}

/// How the state of a WASI module is set up before it starts.
#[derive(Debug)]
pub struct WasiSetup {
    pub program_name: String,
    /// The arguments, as bytes.
    pub args: Vec<Vec<u8>>,
    pub envs: Vec<(String, String)>,
    pub inherits: Vec<String>,
    /// The injected atoms, each name once.
    pub map_atoms: Vec<(String, String)>,
    pub preopen_dirs: Vec<String>,
    /// Directories mapped for the module: guest, then host.
    pub map_dirs: Vec<(String, String)>,
    /// Whether the module runs in a full sandbox with an emulated file system.
    pub full_sandbox: bool,
}

/// How a module's start function ended, when it failed.
#[derive(Debug)]
pub enum StartFailure {
    /// The module asked to exit with this code.
    Exit(u32),
    /// Any other error, by its message.
    Error(String),
}

/// What the `run` command does once a module's start function has returned.
#[derive(Debug)]
pub enum HandledResult {
    /// The module finished.
    Finished,
    /// The process exits with this code.
    ExitProcess(i32),
    /// The command fails with this error.
    Failed(String),
}

impl Wasi {
    /// Options for running as a binfmt interpreter: `preopen` (or `.` when it is not set)
    /// opened, the given environment passed on, and a single WASI version required.
    pub fn for_binfmt_interpreter(preopen: Option<String>, env_vars: Vec<(String, String)>) -> (r:
        Self)
        ensures
            string_texts(r.pre_opened_directories@) == seq![
                match preopen {
                    Some(d) => d@,
                    None => "."@,
                },
            ],
            r.env_vars@ == env_vars@,
            r.mapped_dirs@.len() == 0,
            r.inherits@.len() == 0,
            r.map_atoms@.len() == 0,
            !r.allow_multiple_wasi_versions,
            r.deny_multiple_wasi_versions,
    {
        let dir = match preopen {
            Some(d) => d,
            None => String::from_str("."),
        };
        let mut dirs: Vec<String> = Vec::new();
        dirs.push(dir);
        assert(string_texts(dirs@) =~= seq![dirs@[0]@]);
        Wasi {
            pre_opened_directories: dirs,
            mapped_dirs: Vec::new(),
            env_vars,
            inherits: Vec::new(),
            map_atoms: Vec::new(),
            allow_multiple_wasi_versions: false,
            deny_multiple_wasi_versions: true,
        }
    }

    /// The state a module named `program_name` starts with, given its arguments and whether
    /// it is a WASIX module. A WASIX module runs in a full sandbox, and when no directory is
    /// pre-opened the root is opened and mapped as `.`.
    pub fn setup(&self, program_name: String, args: &Vec<String>, is_wasix: bool) -> (r: WasiSetup)
        requires
            forall|i: int|
                0 <= i < self.map_atoms@.len() ==> split_once_spec(self.map_atoms@[i]@, '=') is Some,
        ensures
            r.program_name@ == program_name@,
            r.args@.len() == args@.len(),
            forall|i: int| 0 <= i < args@.len() ==> r.args@[i]@ == encode_utf8(args@[i]@),
            string_pairs(r.envs@) == string_pairs(self.env_vars@),
            string_texts(r.inherits@) == string_texts(self.inherits@),
            distinct_keys(string_pairs(r.map_atoms@)),
            pairs_map(string_pairs(r.map_atoms@)) == pairs_map(
                self.map_atoms@.map_values(|a: String| split_once_spec(a@, '=')->0),
            ),
            r.full_sandbox == is_wasix,
            if is_wasix && self.pre_opened_directories@.len() == 0 {
                &&& string_texts(r.preopen_dirs@) == seq!["/"@]
                &&& string_pairs(r.map_dirs@) == string_pairs(self.mapped_dirs@).push(
                    ("."@, "/"@),
                )
            } else {
                &&& string_texts(r.preopen_dirs@) == string_texts(self.pre_opened_directories@)
                &&& string_pairs(r.map_dirs@) == string_pairs(self.mapped_dirs@)
            },
    {
        let mut arg_bytes: Vec<Vec<u8>> = Vec::new();
        let mut i: usize = 0;
        while i < args.len()
            invariant
                i <= args@.len(),
                arg_bytes@.len() == i,
                forall|j: int| 0 <= j < i ==> arg_bytes@[j]@ == encode_utf8(args@[j]@),
            decreases args.len() - i,
        {
            arg_bytes.push(vstd::slice::slice_to_vec(args[i].as_str().as_bytes()));
            i = i + 1;
        }
        let map_atoms = atom_map(&self.map_atoms);
        let mut preopen_dirs = clone_strings(&self.pre_opened_directories);
        let mut map_dirs = clone_string_pairs(&self.mapped_dirs);
        if is_wasix && self.pre_opened_directories.len() == 0 {
            let ghost dirs_before = string_texts(preopen_dirs@);
            let ghost maps_before = string_pairs(map_dirs@);
            assert(string_texts(preopen_dirs@).len() == string_texts(
                self.pre_opened_directories@,
            ).len());
            assert(preopen_dirs@.len() == 0);
            preopen_dirs.push(String::from_str("/"));
            map_dirs.push((String::from_str("."), String::from_str("/")));
            assert(string_texts(preopen_dirs@) =~= seq!["/"@]);
            assert(string_pairs(map_dirs@) =~= maps_before.push(("."@, "/"@)));
        }
        WasiSetup {
            program_name,
            args: arg_bytes,
            envs: clone_string_pairs(&self.env_vars),
            inherits: clone_strings(&self.inherits),
            map_atoms,
            preopen_dirs,
            map_dirs,
            full_sandbox: is_wasix,
        }
    }

    /// What the `run` command does with the result of a module's start function: nothing
    /// when it finished, exit the process when the module asked to exit (its code taken as a
    /// signed number), and fail with any other error.
    pub fn handle_result(&self, result: Result<(), StartFailure>) -> (r: HandledResult)
        ensures
            match result {
                Ok(()) => r is Finished,
                Err(StartFailure::Exit(code)) => r == HandledResult::ExitProcess(code as i32),
                Err(StartFailure::Error(e)) => r == HandledResult::Failed(e),
            },
    {
        match result {
            Ok(()) => HandledResult::Finished,
            Err(StartFailure::Exit(code)) => HandledResult::ExitProcess(code as i32),
            Err(StartFailure::Error(e)) => HandledResult::Failed(e),
        }
    }
}

} // verus!
