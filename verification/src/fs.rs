//! The root file system a process starts with: an in-memory file system holding the
//! standard top-level directories, mounted at `/`.

use vstd::prelude::*;
use vstd::string::*;

use crate::text::str_eq;
use crate::vfs::FsError;

verus! {

/// An in-memory file system, as far as the root layout is concerned: the directories
/// created in it, in creation order.
#[derive(Debug)]
pub struct TmpFileSystem {
    dirs: Vec<String>,
}

/// The paths of a list of directories.
pub open spec fn dir_paths(dirs: Seq<String>) -> Seq<Seq<char>> {
    dirs.map_values(|d: String| d@)
}

impl TmpFileSystem {
    /// The directories created so far, in creation order.
    pub closed spec fn spec_dirs(&self) -> Seq<Seq<char>> {
        dir_paths(self.dirs@)
    }

    /// An empty file system.
    pub fn new() -> (r: Self)
        ensures
            r.spec_dirs() == Seq::<Seq<char>>::empty(),
    {
        let r = TmpFileSystem { dirs: Vec::new() };
        assert(r.spec_dirs() =~= Seq::<Seq<char>>::empty());
        r
    }

    /// Whether a directory exists at `path`.
    pub fn dir_exists(&self, path: &str) -> (r: bool)
        ensures
            r == self.spec_dirs().contains(path@),
    {
        let mut i: usize = 0;
        while i < self.dirs.len()
            invariant
                i <= self.dirs.len(),
                forall|j: int| 0 <= j < i ==> self.spec_dirs()[j] != path@,
            decreases self.dirs.len() - i,
        {
            if str_eq(self.dirs[i].as_str(), path) {
                assert(self.spec_dirs()[i as int] == path@);
                return true;
            }
            i = i + 1;
        }
        false
    }

    /// Creates a directory at `path`; fails with `AlreadyExists` when there is one.
    pub fn create_dir(&mut self, path: &str) -> (r: Result<(), FsError>)
        ensures
            old(self).spec_dirs().contains(path@) ==> r == Err::<(), FsError>(FsError::AlreadyExists)
                && final(self).spec_dirs() == old(self).spec_dirs(),
            !old(self).spec_dirs().contains(path@) ==> r is Ok && final(self).spec_dirs()
                == old(self).spec_dirs().push(path@),
    {
        if self.dir_exists(path) {
            return Err(FsError::AlreadyExists);
        }
        let ghost before = self.dirs@;
        self.dirs.push(path.to_owned());
        assert(dir_paths(self.dirs@) =~= dir_paths(before).push(path@));
        Ok(())
    }
}

/// A file system mounted into a union file system.
#[derive(Debug)]
pub struct MountPoint {
    pub path: String,
    pub name: String,
    pub should_sanitize: bool,
    pub fs: TmpFileSystem,
    pub new_path: Option<String>,
}

/// A file system made of several mounted file systems.
#[derive(Debug)]
pub struct UnionFileSystem {
    pub mounts: Vec<MountPoint>,
}

impl UnionFileSystem {
    /// A union with nothing mounted.
    pub fn new() -> (r: Self)
        ensures
            r.mounts@.len() == 0,
    {
        UnionFileSystem { mounts: Vec::new() }
    }

    /// Mounts `fs` under `name` at `path`.
    pub fn mount(
        &mut self,
        name: &str,
        path: &str,
        should_sanitize: bool,
        fs: TmpFileSystem,
        new_path: Option<&str>,
    )
        ensures
            final(self).mounts@.len() == old(self).mounts@.len() + 1,
            forall|i: int|
                0 <= i < old(self).mounts@.len() ==> final(self).mounts@[i] == old(self).mounts@[i],
            ({
                let m = final(self).mounts@.last();
                &&& m.name@ == name@
                &&& m.path@ == path@
                &&& m.should_sanitize == should_sanitize
                &&& m.fs == fs
                &&& match new_path {
                    Some(p) => m.new_path matches Some(q) && q@ == p@,
                    None => m.new_path is None,
                }
            }),
    {
        let new_path = match new_path {
            Some(p) => Some(p.to_owned()),
            None => None,
        };
        self.mounts.push(
            MountPoint {
                path: path.to_owned(),
                name: name.to_owned(),
                should_sanitize,
                fs,
                new_path,
            },
        );
    }
}

/// The directories a root file system starts with.
pub open spec fn default_root_dir_paths() -> Seq<Seq<char>> {
    seq!["/.app"@, "/.private"@, "/bin"@, "/dev"@, "/etc"@, "/tmp"@]
}

/// Builds the root file system of a process.
pub struct RootFileSystemBuilder {
    default_root_dirs: bool,
}

impl RootFileSystemBuilder {
    /// Whether the standard top-level directories will be created.
    pub closed spec fn spec_default_root_dirs(&self) -> bool {
        self.default_root_dirs
    }

    /// A builder that creates the standard top-level directories.
    pub fn new() -> (r: Self)
        ensures
            r.spec_default_root_dirs(),
    {
        RootFileSystemBuilder { default_root_dirs: true }
    }

    /// Chooses whether the standard top-level directories are created.
    pub fn default_root_dirs(self, val: bool) -> (r: Self)
        ensures
            r.spec_default_root_dirs() == val,
    {
        RootFileSystemBuilder { default_root_dirs: val }
    }

    /// A union file system with one in-memory file system mounted at `/`, holding the
    /// standard top-level directories when they were asked for and nothing otherwise.
    pub fn build(self) -> (r: UnionFileSystem)
        ensures
            r.mounts@.len() == 1,
            r.mounts@[0].name@ == "/"@,
            r.mounts@[0].path@ == "/"@,
            !r.mounts@[0].should_sanitize,
            r.mounts@[0].new_path is None,
            r.mounts@[0].fs.spec_dirs() == (if self.spec_default_root_dirs() {
                default_root_dir_paths()
            } else {
                Seq::<Seq<char>>::empty()
            }),
    {
        let mut tmp = TmpFileSystem::new();
        if self.default_root_dirs {
            let root_dirs: Vec<&str> = vec!["/.app", "/.private", "/bin", "/dev", "/etc", "/tmp"];
            proof {
                reveal_strlit("/.app");
                reveal_strlit("/.private");
                reveal_strlit("/bin");
                reveal_strlit("/dev");
                reveal_strlit("/etc");
                reveal_strlit("/tmp");
            }
            let ghost wanted = default_root_dir_paths();
            assert(forall|i: int| 0 <= i < 6 ==> root_dirs@[i]@ == wanted[i]);
            let mut i: usize = 0;
            while i < root_dirs.len()
                invariant
                    root_dirs@.len() == 6,
                    i <= 6,
                    forall|k: int| 0 <= k < 6 ==> root_dirs@[k]@ == wanted[k],
                    wanted == default_root_dir_paths(),
                    tmp.spec_dirs() == wanted.subrange(0, i as int),
                decreases 6 - i,
            {
                let root_dir = root_dirs[i];
                assert(!wanted.subrange(0, i as int).contains(root_dir@)) by {
                    reveal_strlit("/.app");
                    reveal_strlit("/.private");
                    reveal_strlit("/bin");
                    reveal_strlit("/dev");
                    reveal_strlit("/etc");
                    reveal_strlit("/tmp");
                    if wanted.subrange(0, i as int).contains(root_dir@) {
                        let k = choose|k: int| 0 <= k < i && wanted.subrange(0, i as int)[k] == root_dir@;
                        assert(wanted[k] == wanted[i as int]);
                        assert(wanted[k][2] != wanted[i as int][2] || wanted[k].len() != wanted[i as int].len() || wanted[k][1] != wanted[i as int][1]);
                    }
                }
                let _ = tmp.create_dir(root_dir);
                assert(wanted.subrange(0, i + 1) =~= wanted.subrange(0, i as int).push(wanted[i as int]));
                i = i + 1;
            }
            assert(wanted.subrange(0, 6) =~= wanted);
        }
        let mut union = UnionFileSystem::new();
        union.mount("/", "/", false, tmp, None);
        proof {
            reveal_strlit("/");
        }
        union
    }
}

} // verus!
