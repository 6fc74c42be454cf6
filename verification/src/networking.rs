//! Local networking: the option state of TCP streams, the backlog of accepted connections
//! of a TCP listener, and how reads are reported.

use core::time::Duration;
use vstd::prelude::*;

verus! {

/// Networking on the sockets of the host.
#[derive(Debug)]
pub struct LocalNetworking {}

impl Default for LocalNetworking {
    fn default() -> (r: Self) {
        LocalNetworking {}
    }
}

/// A timeout of a socket.
#[derive(Debug, Clone, Copy, PartialEq, Eq, Structural)]
pub enum TimeType {
    ReadTimeout,
    WriteTimeout,
    AcceptTimeout,
    ConnectTimeout,
    Linger,
}

/// An error of a networking operation.
#[derive(Debug, Clone, Copy, PartialEq, Eq, Structural)]
pub enum NetworkError {
    InvalidFd,
    AlreadyExists,
    Lock,
    IOError,
    AddressInUse,
    AddressNotAvailable,
    BrokenPipe,
    ConnectionAborted,
    ConnectionRefused,
    ConnectionReset,
    Interrupted,
    InvalidData,
    InvalidInput,
    NotConnected,
    NoDevice,
    PermissionDenied,
    TimedOut,
    UnexpectedEof,
    WouldBlock,
    WriteZero,
    Unsupported,
    UnknownError,
}

/// What the socket itself must be told after a timeout was set.
#[derive(Debug, PartialEq, Eq, Structural)]
pub enum TimeoutApply {
    /// Nothing: the timeout is only remembered.
    Nothing,
    /// Its read timeout.
    Read,
    /// Its write timeout.
    Write,
}

/// The timeouts of a TCP stream.
#[derive(Debug, Clone, Copy)]
pub struct TcpStreamOptions {
    read_timeout: Option<Duration>,
    write_timeout: Option<Duration>,
    connect_timeout: Option<Duration>,
    linger_timeout: Option<Duration>,
}

impl TcpStreamOptions {
    /// The timeout of kind `ty` that is set, or `None` for a kind a stream does not have.
    pub closed spec fn timeout(&self, ty: TimeType) -> Option<Option<Duration>> {
        match ty {
            TimeType::ReadTimeout => Some(self.read_timeout),
            TimeType::WriteTimeout => Some(self.write_timeout),
            TimeType::ConnectTimeout => Some(self.connect_timeout),
            TimeType::Linger => Some(self.linger_timeout),
            TimeType::AcceptTimeout => None,
        }
    }

    /// What setting the timeout of kind `ty` gives and leaves: the read, write and connect
    /// timeouts are set (the read and write ones are also to be set on the socket); any other
    /// kind is refused with `InvalidInput`, changing nothing.
    pub open spec fn set_opt_time_post(
        self,
        after: Self,
        ty: TimeType,
        timeout: Option<Duration>,
        r: Result<TimeoutApply, NetworkError>,
    ) -> bool {
        &&& match ty {
            TimeType::ReadTimeout => r == Ok::<TimeoutApply, NetworkError>(TimeoutApply::Read),
            TimeType::WriteTimeout => r == Ok::<TimeoutApply, NetworkError>(TimeoutApply::Write),
            TimeType::ConnectTimeout => r == Ok::<TimeoutApply, NetworkError>(TimeoutApply::Nothing),
            _ => r == Err::<TimeoutApply, NetworkError>(NetworkError::InvalidInput),
        }
        &&& r is Ok ==> after.timeout(ty) == Some(timeout)
        &&& forall|other: TimeType| other != ty ==> after.timeout(other) == self.timeout(other)
        &&& r is Err ==> after == self
    }

    /// What reading the timeout of kind `ty` gives: the timeout, or `InvalidInput` for a kind
    /// a stream does not have.
    pub open spec fn opt_time_post(self, ty: TimeType, r: Result<Option<Duration>, NetworkError>) -> bool {
        match self.timeout(ty) {
            Some(t) => r == Ok::<Option<Duration>, NetworkError>(t),
            None => r == Err::<Option<Duration>, NetworkError>(NetworkError::InvalidInput),
        }
    }

    /// A stream with no timeout set.
    pub fn new() -> (r: Self)
        ensures
            forall|ty: TimeType| ty != TimeType::AcceptTimeout ==> r.timeout(ty) == Some(None::<Duration>),
            r.timeout(TimeType::AcceptTimeout) is None,
    {
        TcpStreamOptions {
            read_timeout: None,
            write_timeout: None,
            connect_timeout: None,
            linger_timeout: None,
        }
    }

    /// Sets the timeout of kind `ty`. The read, write and connect timeouts can be set; the
    /// read and write timeouts must also be set on the socket. Any other kind is refused with
    /// `InvalidInput` and changes nothing.
    pub fn set_opt_time(&mut self, ty: TimeType, timeout: Option<Duration>) -> (r: Result<
        TimeoutApply,
        NetworkError,
    >)
        ensures
            old(self).set_opt_time_post(*final(self), ty, timeout, r),
    {
        match ty {
            TimeType::ReadTimeout => {
                self.read_timeout = timeout;
                Ok(TimeoutApply::Read)
            },
            TimeType::WriteTimeout => {
                self.write_timeout = timeout;
                Ok(TimeoutApply::Write)
            },
            TimeType::ConnectTimeout => {
                self.connect_timeout = timeout;
                Ok(TimeoutApply::Nothing)
            },
            _ => Err(NetworkError::InvalidInput),
        }
    }

    /// The timeout of kind `ty`; a kind a stream does not have is refused with
    /// `InvalidInput`.
    pub fn opt_time(&self, ty: TimeType) -> (r: Result<Option<Duration>, NetworkError>)
        ensures
            self.opt_time_post(ty, r),
    {
        match ty {
            TimeType::ReadTimeout => Ok(self.read_timeout),
            TimeType::WriteTimeout => Ok(self.write_timeout),
            TimeType::ConnectTimeout => Ok(self.connect_timeout),
            TimeType::Linger => Ok(self.linger_timeout),
            _ => Err(NetworkError::InvalidInput),
        }
    }
}

/// What happened when a listener tried to accept a connection without waiting.
#[derive(Debug)]
pub enum AcceptEvent<T> {
    /// A connection was accepted.
    Accepted(T),
    /// No connection was waiting (the attempt would block, or timed out).
    NoneWaiting,
    /// Accepting failed.
    Failed(NetworkError),
}

/// What a peek at a listener calls for next.
#[derive(Debug)]
pub enum PeekStep {
    /// Try to accept another connection without waiting.
    AcceptAgain,
    /// The peek is over: the number of connections waiting, or the error that ended it.
    Done(Result<usize, NetworkError>),
}

/// The connections a TCP listener has accepted but not yet handed out, and its accept
/// timeout and blocking mode. The last connection accepted is handed out first.
#[derive(Debug)]
pub struct ListenerBacklog<T> {
    backlog: Vec<T>,
    timeout: Option<Duration>,
    nonblocking: bool,
}

impl<T> ListenerBacklog<T> {
    /// The connections waiting, oldest first.
    pub closed spec fn waiting(&self) -> Seq<T> {
        self.backlog@
    }

    /// The accept timeout.
    pub closed spec fn spec_timeout(&self) -> Option<Duration> {
        self.timeout
    }

    /// Whether the listener is in non-blocking mode.
    pub closed spec fn spec_nonblocking(&self) -> bool {
        self.nonblocking
    }

    /// What handing out a connection gives and leaves: the one accepted last, no longer
    /// waiting; nothing when none is waiting.
    pub open spec fn pop_post(self, after: Self, r: Option<T>) -> bool {
        &&& self.waiting().len() == 0 ==> r is None && after.waiting() == self.waiting()
        &&& self.waiting().len() > 0 ==> r == Some(self.waiting().last()) && after.waiting()
            == self.waiting().drop_last()
        &&& after.spec_timeout() == self.spec_timeout()
        &&& after.spec_nonblocking() == self.spec_nonblocking()
    }

    /// What keeping an accepted connection leaves: it waits after the others.
    pub open spec fn push_post(self, after: Self, conn: T) -> bool {
        &&& after.waiting() == self.waiting().push(conn)
        &&& after.spec_timeout() == self.spec_timeout()
        &&& after.spec_nonblocking() == self.spec_nonblocking()
    }

    /// A listener with nothing waiting, no timeout, in blocking mode.
    pub fn new() -> (r: Self)
        ensures
            r.waiting().len() == 0,
            r.spec_timeout() is None,
            !r.spec_nonblocking(),
    {
        ListenerBacklog { backlog: Vec::new(), timeout: None, nonblocking: false }
    }

    /// Hands out the connection accepted last, if any is waiting.
    pub fn pop(&mut self) -> (r: Option<T>)
        ensures
            old(self).pop_post(*final(self), r),
    {
        self.backlog.pop()
    }

    /// Keeps an accepted connection, and gives back how many are waiting.
    pub fn push(&mut self, conn: T) -> (r: usize)
        requires
            old(self).waiting().len() < usize::MAX,
        ensures
            old(self).push_post(*final(self), conn),
            r == final(self).waiting().len(),
    {
        self.backlog.push(conn);
        self.backlog.len()
    }

    /// How many connections are waiting.
    pub fn len(&self) -> (r: usize)
        ensures
            r == self.waiting().len(),
    {
        self.backlog.len()
    }

    /// Starts a peek: when connections are already waiting, their number; otherwise `None`,
    /// and connections are to be accepted without waiting.
    pub fn peek_start(&self) -> (r: Option<usize>)
        ensures
            self.waiting().len() > 0 ==> r == Some(self.waiting().len() as usize),
            self.waiting().len() == 0 ==> r is None,
    {
        if self.backlog.len() > 0 {
            Some(self.backlog.len())
        } else {
            None
        }
    }

    /// Takes in the outcome of one attempt to accept during a peek. An accepted connection
    /// is kept and another attempt follows; when none is waiting the peek gives the number
    /// kept; an error ends the peek with that error, the connections kept staying kept.
    pub fn peek_event(&mut self, event: AcceptEvent<T>) -> (r: PeekStep)
        requires
            old(self).waiting().len() < usize::MAX,
        ensures
            match event {
                AcceptEvent::Accepted(c) => r == PeekStep::AcceptAgain && final(self).waiting()
                    == old(self).waiting().push(c),
                AcceptEvent::NoneWaiting => r == PeekStep::Done(
                    Ok::<usize, NetworkError>(old(self).waiting().len() as usize),
                ) && final(self).waiting() == old(self).waiting(),
                AcceptEvent::Failed(e) => r == PeekStep::Done(Err::<usize, NetworkError>(e))
                    && final(self).waiting() == old(self).waiting(),
            },
            final(self).spec_timeout() == old(self).spec_timeout(),
            final(self).spec_nonblocking() == old(self).spec_nonblocking(),
    {
        match event {
            AcceptEvent::Accepted(c) => {
                self.backlog.push(c);
                PeekStep::AcceptAgain
            },
            AcceptEvent::NoneWaiting => PeekStep::Done(Ok(self.backlog.len())),
            AcceptEvent::Failed(e) => PeekStep::Done(Err(e)),
        }
    }

    /// Sets the accept timeout.
    pub fn set_timeout(&mut self, timeout: Option<Duration>) -> (r: Result<(), NetworkError>)
        ensures
            r is Ok,
            final(self).spec_timeout() == timeout,
            final(self).waiting() == old(self).waiting(),
            final(self).spec_nonblocking() == old(self).spec_nonblocking(),
    {
        self.timeout = timeout;
        Ok(())
    }

    /// The accept timeout.
    pub fn timeout(&self) -> (r: Result<Option<Duration>, NetworkError>)
        ensures
            r == Ok::<Option<Duration>, NetworkError>(self.spec_timeout()),
    {
        Ok(self.timeout)
    }

    /// Records the blocking mode; the socket itself is then to be switched to it.
    pub fn set_nonblocking(&mut self, nonblocking: bool)
        ensures
            final(self).spec_nonblocking() == nonblocking,
            final(self).waiting() == old(self).waiting(),
            final(self).spec_timeout() == old(self).spec_timeout(),
    {
        self.nonblocking = nonblocking;
    }

    /// Whether the listener is in non-blocking mode.
    pub fn nonblocking(&self) -> (r: Result<bool, NetworkError>)
        ensures
            r == Ok::<bool, NetworkError>(self.spec_nonblocking()),
    {
        Ok(self.nonblocking)
    }
}

/// A timeout that was set is what reading it gives back.
pub proof fn lemma_opt_time_after_set(
    o0: TcpStreamOptions,
    o1: TcpStreamOptions,
    ty: TimeType,
    timeout: Option<Duration>,
    set: Result<TimeoutApply, NetworkError>,
    read: Result<Option<Duration>, NetworkError>,
)
    requires
        o0.set_opt_time_post(o1, ty, timeout, set),
        set is Ok,
        o1.opt_time_post(ty, read),
    ensures
        read == Ok::<Option<Duration>, NetworkError>(timeout),
{
}

/// The connection kept last is the one handed out next, and handing it out leaves the
/// backlog as it was before it was kept.
pub proof fn lemma_pop_after_push<T>(
    b0: ListenerBacklog<T>,
    b1: ListenerBacklog<T>,
    b2: ListenerBacklog<T>,
    conn: T,
    r: Option<T>,
)
    requires
        b0.push_post(b1, conn),
        b1.pop_post(b2, r),
    ensures
        r == Some(conn),
        b2.waiting() == b0.waiting(),
{
    assert(b0.waiting().push(conn).drop_last() =~= b0.waiting());
}

/// How many bytes one read from a stream takes at most.
pub const RECV_BUFFER_SIZE: usize = 8192;

/// Whether a read of `read` bytes may have left data behind: it filled the whole buffer.
pub fn recv_truncated(read: usize) -> (r: bool)
    ensures
        r == (read == RECV_BUFFER_SIZE),
{
    read == RECV_BUFFER_SIZE
}

/// The outcome of a read that does not wait: a read that would block or timed out gives
/// nothing; any other error is reported; otherwise the number of bytes read.
pub fn try_recv_outcome(read: Result<usize, NetworkError>) -> (r: Result<Option<usize>, NetworkError>)
    ensures
        match read {
            Ok(n) => r == Ok::<Option<usize>, NetworkError>(Some(n)),
            Err(NetworkError::TimedOut) => r == Ok::<Option<usize>, NetworkError>(None),
            Err(NetworkError::WouldBlock) => r == Ok::<Option<usize>, NetworkError>(None),
            Err(e) => r == Err::<Option<usize>, NetworkError>(e),
        },
{
    match read {
        Ok(n) => Ok(Some(n)),
        Err(NetworkError::TimedOut) => Ok(None),
        Err(NetworkError::WouldBlock) => Ok(None),
        Err(e) => Err(e),
    }
}

} // verus!
