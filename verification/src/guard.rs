//! Guards over the inodes of open files: what polling an inode reports, and how a file
//! descriptor is turned into a guard on its file.

use vstd::prelude::*;

use crate::vfs::FsError;

verus! {

/// What the logic reads of an open file handle.
#[derive(Debug, Clone, Copy)]
pub struct FileHandleState {
    /// Whether the handle is still open.
    pub open: bool,
    /// What the handle reports as readable without blocking.
    pub read_available: Result<Option<usize>, FsError>,
    /// What the handle reports as writable without blocking.
    pub write_available: Result<Option<usize>, FsError>,
    /// What the handle reports as available, in bytes.
    pub available: Result<usize, FsError>,
    /// When the file was last read.
    pub last_accessed: u64,
    /// When the file was last written.
    pub last_modified: u64,
    /// When the file was created.
    pub created_time: u64,
    /// The size of the file in bytes.
    pub size: u64,
}

/// The kind of a socket.
#[derive(Debug, Clone, Copy, PartialEq, Eq, Structural)]
pub enum SocketKind {
    PreSocket,
    HttpRequest,
    WebSocket,
    TcpListener,
    TcpStream,
    UdpSocket,
    Raw,
    Closed,
}

/// What the logic reads of a socket.
#[derive(Debug, Clone, Copy)]
pub struct SocketState {
    /// What kind of socket it is.
    pub kind: SocketKind,
    /// What peeking at the socket reports: the number of bytes waiting, or the error.
    pub peek: Result<usize, FsError>,
    /// Whether the socket accepts writes.
    pub can_write: bool,
}

/// The kind of an inode, holding what the poll logic reads of it.
#[derive(Debug, Clone, Copy)]
pub enum Kind {
    File { handle: Option<FileHandleState> },
    Dir,
    Root,
    Socket { socket: SocketState },
    Pipe,
    Symlink,
    Buffer,
    EventNotifications { counter: u64, waker_count: usize },
}

/// Bytes that can be read from an inode without blocking, as the poll guard reports them.
pub open spec fn spec_bytes_available_read(k: Kind) -> Result<Option<usize>, FsError> {
    match k {
        Kind::File { handle } => match handle {
            Some(h) => h.read_available,
            None => Ok(None),
        },
        Kind::EventNotifications { counter, .. } => Ok(Some(counter as usize)),
        Kind::Socket { socket } => match socket.peek {
            Ok(n) => Ok(Some(n)),
            Err(e) => Err(e),
        },
        _ => Ok(None),
    }
}

/// Bytes that can be written to an inode without blocking, as the poll guard reports them.
pub open spec fn spec_bytes_available_write(k: Kind) -> Result<Option<usize>, FsError> {
    match k {
        Kind::File { handle } => match handle {
            Some(h) => h.write_available,
            None => Ok(None),
        },
        Kind::EventNotifications { waker_count, .. } => Ok(Some(waker_count)),
        Kind::Socket { socket } => if socket.can_write {
            Ok(Some(4096))
        } else {
            Ok(Some(0))
        },
        _ => Ok(None),
    }
}

/// Whether an inode counts as open for polling.
pub open spec fn spec_is_open(k: Kind) -> bool {
    match k {
        Kind::File { handle } => match handle {
            Some(h) => h.open,
            None => false,
        },
        Kind::EventNotifications { .. } | Kind::Socket { .. } => true,
        _ => false,
    }
}

/// How a poll guard on an inode of this kind is described.
pub open spec fn guard_description(k: Kind) -> Seq<char> {
    match k {
        Kind::File { .. } => "guard-file"@,
        Kind::EventNotifications { .. } => "guard-notifications"@,
        Kind::Socket { socket } => match socket.kind {
            SocketKind::TcpListener => "guard-tcp-listener"@,
            SocketKind::TcpStream => "guard-tcp-stream"@,
            SocketKind::UdpSocket => "guard-udp-socket"@,
            SocketKind::Raw => "guard-raw-socket"@,
            SocketKind::HttpRequest => "guard-http-request"@,
            SocketKind::WebSocket => "guard-web-socket"@,
            _ => "guard-socket"@,
        },
        _ => "guard-unknown"@,
    }
}

/// A read lock on an inode, used to poll it.
#[derive(Debug)]
pub struct InodeValFilePollGuard<'a> {
    pub guard: &'a Kind,
}

impl<'a> InodeValFilePollGuard<'a> {
    /// The text that describes this guard.
    pub fn description(&self) -> (r: &'static str)
        ensures
            r@ == guard_description(*self.guard),
    {
        match self.guard {
            Kind::File { .. } => "guard-file",
            Kind::EventNotifications { .. } => "guard-notifications",
            Kind::Socket { socket } => match socket.kind {
                SocketKind::TcpListener => "guard-tcp-listener",
                SocketKind::TcpStream => "guard-tcp-stream",
                SocketKind::UdpSocket => "guard-udp-socket",
                SocketKind::Raw => "guard-raw-socket",
                SocketKind::HttpRequest => "guard-http-request",
                SocketKind::WebSocket => "guard-web-socket",
                _ => "guard-socket",
            },
            _ => "guard-unknown",
        }
    }

    pub fn bytes_available_read(&self) -> (r: Result<Option<usize>, FsError>)
        ensures
            r == spec_bytes_available_read(*self.guard),
    {
        match self.guard {
            Kind::File { handle } => match handle {
                Some(h) => h.read_available,
                None => Ok(None),
            },
            Kind::EventNotifications { counter, .. } => Ok(Some(*counter as usize)),
            Kind::Socket { socket } => match socket.peek {
                Ok(n) => Ok(Some(n)),
                Err(e) => Err(e),
            },
            _ => Ok(None),
        }
    }

    pub fn bytes_available_write(&self) -> (r: Result<Option<usize>, FsError>)
        ensures
            r == spec_bytes_available_write(*self.guard),
    {
        match self.guard {
            Kind::File { handle } => match handle {
                Some(h) => h.write_available,
                None => Ok(None),
            },
            Kind::EventNotifications { waker_count, .. } => Ok(Some(*waker_count)),
            Kind::Socket { socket } => {
                if socket.can_write {
                    Ok(Some(4096))
                } else {
                    Ok(Some(0))
                }
            },
            _ => Ok(None),
        }
    }

    pub fn is_open(&self) -> (r: bool)
        ensures
            r == spec_is_open(*self.guard),
    {
        match self.guard {
            Kind::File { handle } => match handle {
                Some(h) => h.open,
                None => false,
            },
            Kind::EventNotifications { .. } | Kind::Socket { .. } => true,
            _ => false,
        }
    }
}

/// A read lock on a file inode.
#[derive(Debug)]
pub struct InodeValFileReadGuard<'a> {
    pub guard: &'a Kind,
}

impl<'a> InodeValFileReadGuard<'a> {
    /// Turns the read lock into a poll guard on the same inode.
    pub fn into_poll_guard(self) -> (r: InodeValFilePollGuard<'a>)
        ensures
            r.guard == self.guard,
    {
        InodeValFilePollGuard { guard: self.guard }
    }

    /// The handle of the locked file.
    pub fn handle(&self) -> (r: &Option<FileHandleState>)
        requires
            self.guard is File,
        ensures
            *r == self.guard->handle,
    {
        match self.guard {
            Kind::File { handle } => handle,
            _ => vstd::pervasive::unreached(),
        }
    }
}

/// A write lock on a file inode.
#[derive(Debug)]
pub struct InodeValFileWriteGuard<'a> {
    pub guard: &'a mut Kind,
}

impl<'a> InodeValFileWriteGuard<'a> {
    /// The handle of the locked file, for changing it.
    pub fn handle_mut(&mut self) -> (r: &mut Option<FileHandleState>)
        requires
            *old(self).guard is File,
        ensures
            *r == (*old(self).guard)->handle,
            *final(self).guard == (Kind::File { handle: *final(r) }),
    {
        match &mut *self.guard {
            Kind::File { handle } => handle,
            _ => vstd::pervasive::unreached(),
        }
    }
}

/// The inodes of a process, indexed by inode number.
#[derive(Debug)]
pub struct WasiInodes {
    pub arena: Vec<Kind>,
}

/// The open file descriptors of a process, each with its inode.
#[derive(Debug)]
pub struct WasiFdMap {
    pub entries: Vec<(u32, usize)>,
}

/// The inode of file descriptor `fd`, if it is open.
pub open spec fn spec_fd_inode(fds: Seq<(u32, usize)>, fd: u32) -> Option<usize>
    decreases fds.len(),
{
    if fds.len() == 0 {
        None
    } else if fds[0].0 == fd {
        Some(fds[0].1)
    } else {
        spec_fd_inode(fds.drop_first(), fd)
    }
}

impl WasiFdMap {
    /// The inode of file descriptor `fd`, if it is open.
    pub fn get(&self, fd: u32) -> (r: Option<usize>)
        ensures
            r == spec_fd_inode(self.entries@, fd),
    {
        let mut i: usize = 0;
        assert(self.entries@.skip(0) =~= self.entries@);
        while i < self.entries.len()
            invariant
                i <= self.entries@.len(),
                spec_fd_inode(self.entries@, fd) == spec_fd_inode(self.entries@.skip(i as int), fd),
            decreases self.entries.len() - i,
        {
            let ghost rest = self.entries@.skip(i as int);
            assert(rest.drop_first() =~= self.entries@.skip(i + 1));
            if self.entries[i].0 == fd {
                return Some(self.entries[i].1);
            }
            i = i + 1;
        }
        None
    }
}

/// A handle on the file behind a file descriptor, that locks it on use.
#[derive(Debug)]
pub struct WasiStateFileGuard {
    inode: usize,
}

impl WasiStateFileGuard {
    /// The inode this guard locks.
    pub closed spec fn spec_inode(&self) -> usize {
        self.inode
    }

    /// A guard on the file behind `fd`: none when `fd` is not open, and `NotAFile` when it
    /// is open on something other than a file.
    pub fn new(inodes: &WasiInodes, fd_map: &WasiFdMap, fd: u32) -> (r: Result<Option<Self>, FsError>)
        requires
            spec_fd_inode(fd_map.entries@, fd) matches Some(i) ==> i < inodes.arena@.len(),
        ensures
            match spec_fd_inode(fd_map.entries@, fd) {
                None => r == Ok::<Option<Self>, FsError>(None),
                Some(i) => if inodes.arena@[i as int] is File {
                    r matches Ok(Some(g)) && g.spec_inode() == i
                } else {
                    r == Err::<Option<Self>, FsError>(FsError::NotAFile)
                },
            },
    {
        match fd_map.get(fd) {
            Some(inode) => {
                if let Kind::File { .. } = &inodes.arena[inode] {
                    Ok(Some(WasiStateFileGuard { inode }))
                } else {
                    Err(FsError::NotAFile)
                }
            },
            None => Ok(None),
        }
    }

    /// Locks the file for reading.
    pub fn lock_read<'a>(&self, inodes: &'a WasiInodes) -> (r: InodeValFileReadGuard<'a>)
        requires
            self.spec_inode() < inodes.arena@.len(),
            inodes.arena@[self.spec_inode() as int] is File,
        ensures
            *r.guard == inodes.arena@[self.spec_inode() as int],
    {
        InodeValFileReadGuard { guard: &inodes.arena[self.inode] }
    }

    /// Locks the file for writing.
    pub fn lock_write<'a>(&self, inodes: &'a mut WasiInodes) -> (r: InodeValFileWriteGuard<'a>)
        requires
            self.spec_inode() < old(inodes).arena@.len(),
            old(inodes).arena@[self.spec_inode() as int] is File,
        ensures
            *r.guard == old(inodes).arena@[self.spec_inode() as int],
            final(inodes).arena@ == old(inodes).arena@.update(self.spec_inode() as int, *final(r.guard)),
    {
        InodeValFileWriteGuard { guard: &mut inodes.arena[self.inode] }
    }

    /// Whether the file is open: what its handle says, and not open without a handle.
    pub fn is_open(&self, inodes: &WasiInodes) -> (r: bool)
        requires
            self.spec_inode() < inodes.arena@.len(),
            inodes.arena@[self.spec_inode() as int] is File,
        ensures
            r == match inodes.arena@[self.spec_inode() as int] {
                Kind::File { handle: Some(h) } => h.open,
                _ => false,
            },
    {
        let guard = self.lock_read(inodes);
        match guard.handle() {
            Some(h) => h.open,
            None => false,
        }
    }

    /// What can be read from the file without blocking, as its handle reports it; a file
    /// without a handle gives `IOError`.
    pub fn bytes_available_read(&self, inodes: &WasiInodes) -> (r: Result<Option<usize>, FsError>)
        requires
            self.spec_inode() < inodes.arena@.len(),
            inodes.arena@[self.spec_inode() as int] is File,
        ensures
            r == match inodes.arena@[self.spec_inode() as int] {
                Kind::File { handle: Some(h) } => h.read_available,
                _ => Err(FsError::IOError),
            },
    {
        let guard = self.lock_read(inodes);
        match guard.handle() {
            Some(h) => h.read_available,
            None => Err(FsError::IOError),
        }
    }

    /// What can be written to the file without blocking, as its handle reports it; a file
    /// without a handle gives `IOError`.
    pub fn bytes_available_write(&self, inodes: &WasiInodes) -> (r: Result<Option<usize>, FsError>)
        requires
            self.spec_inode() < inodes.arena@.len(),
            inodes.arena@[self.spec_inode() as int] is File,
        ensures
            r == match inodes.arena@[self.spec_inode() as int] {
                Kind::File { handle: Some(h) } => h.write_available,
                _ => Err(FsError::IOError),
            },
    {
        let guard = self.lock_read(inodes);
        match guard.handle() {
            Some(h) => h.write_available,
            None => Err(FsError::IOError),
        }
    }

    /// The handle of the file, if it has one.
    pub open spec fn spec_handle(&self, inodes: &WasiInodes) -> Option<FileHandleState> {
        match inodes.arena@[self.spec_inode() as int] {
            Kind::File { handle } => handle,
            _ => None,
        }
    }

    /// When the file was last read; zero without a handle.
    pub fn last_accessed(&self, inodes: &WasiInodes) -> (r: u64)
        requires
            self.spec_inode() < inodes.arena@.len(),
            inodes.arena@[self.spec_inode() as int] is File,
        ensures
            r == match self.spec_handle(inodes) {
                Some(h) => h.last_accessed,
                None => 0,
            },
    {
        let guard = self.lock_read(inodes);
        match guard.handle() {
            Some(h) => h.last_accessed,
            None => 0,
        }
    }

    /// When the file was last written; zero without a handle.
    pub fn last_modified(&self, inodes: &WasiInodes) -> (r: u64)
        requires
            self.spec_inode() < inodes.arena@.len(),
            inodes.arena@[self.spec_inode() as int] is File,
        ensures
            r == match self.spec_handle(inodes) {
                Some(h) => h.last_modified,
                None => 0,
            },
    {
        let guard = self.lock_read(inodes);
        match guard.handle() {
            Some(h) => h.last_modified,
            None => 0,
        }
    }

    /// When the file was created; zero without a handle.
    pub fn created_time(&self, inodes: &WasiInodes) -> (r: u64)
        requires
            self.spec_inode() < inodes.arena@.len(),
            inodes.arena@[self.spec_inode() as int] is File,
        ensures
            r == match self.spec_handle(inodes) {
                Some(h) => h.created_time,
                None => 0,
            },
    {
        let guard = self.lock_read(inodes);
        match guard.handle() {
            Some(h) => h.created_time,
            None => 0,
        }
    }

    /// The size of the file; zero without a handle.
    pub fn size(&self, inodes: &WasiInodes) -> (r: u64)
        requires
            self.spec_inode() < inodes.arena@.len(),
            inodes.arena@[self.spec_inode() as int] is File,
        ensures
            r == match self.spec_handle(inodes) {
                Some(h) => h.size,
                None => 0,
            },
    {
        let guard = self.lock_read(inodes);
        match guard.handle() {
            Some(h) => h.size,
            None => 0,
        }
    }

    /// The bytes available in the file, as its handle reports them; `IOError` without a
    /// handle.
    pub fn bytes_available(&self, inodes: &WasiInodes) -> (r: Result<usize, FsError>)
        requires
            self.spec_inode() < inodes.arena@.len(),
            inodes.arena@[self.spec_inode() as int] is File,
        ensures
            r == match self.spec_handle(inodes) {
                Some(h) => h.available,
                None => Err(FsError::IOError),
            },
    {
        let guard = self.lock_read(inodes);
        match guard.handle() {
            Some(h) => h.available,
            None => Err(FsError::IOError),
        }
    }
}

} // verus!
