//! The virtual bus: calls between processes and the invocations that answer them.

use vstd::prelude::*;

verus! {

/// Result of a bus operation.
pub type BusResult<T> = core::result::Result<T, VirtualBusError>;

/// An opaque handle naming a call on the bus.
#[derive(Debug, Clone, Copy, PartialEq, Eq, PartialOrd, Ord, Structural)]
pub struct CallDescriptor(u32);

impl CallDescriptor {
    /// The raw number behind this descriptor.
    pub closed spec fn spec_raw(&self) -> u32 {
        self.0
    }

    /// Returns the raw number behind this descriptor.
    pub fn raw(&self) -> (r: u32)
        ensures
            r == self.spec_raw(),
    {
        self.0
    }
}

impl From<u32> for CallDescriptor {
    fn from(a: u32) -> (r: Self)
        ensures
            r.spec_raw() == a,
    {
        CallDescriptor(a)
    }
}

impl vstd::std_specs::convert::FromSpecImpl<u32> for CallDescriptor {
    open spec fn obeys_from_spec() -> bool {
        true
    }

    closed spec fn from_spec(v: u32) -> Self {
        CallDescriptor(v)
    }
}

/// A descriptor made from a number gives that number back as its raw value.
pub proof fn lemma_descriptor_raw_round_trip(a: u32)
    ensures
        <CallDescriptor as vstd::std_specs::convert::FromSpec<u32>>::from_spec(a).spec_raw() == a,
{
}

/// A descriptor is fixed by its number: making one from the raw value of another gives that
/// other back.
pub proof fn lemma_descriptor_fixed_by_raw(d: CallDescriptor)
    ensures
        <CallDescriptor as vstd::std_specs::convert::FromSpec<u32>>::from_spec(d.spec_raw()) == d,
{
}

/// Format that the supplied data is in.
#[derive(Debug, Copy, Clone, PartialEq, Eq, Structural)]
pub enum BusDataFormat {
    Raw,
    Bincode,
    MessagePack,
    Json,
    Yaml,
    Xml,
}

/// Errors raised on the bus.
#[derive(Copy, Clone, Debug, PartialEq, Eq, Structural)]
pub enum VirtualBusError {
    /// Failed during serialization
    Serialization,
    /// Failed during deserialization
    Deserialization,
    /// Invalid WAPM process
    InvalidWapm,
    /// Failed to fetch the WAPM process
    FetchFailed,
    /// Failed to compile the WAPM process
    CompileError,
    /// Invalid ABI
    InvalidABI,
    /// Call was aborted
    Aborted,
    /// Bad handle
    BadHandle,
    /// Invalid topic
    InvalidTopic,
    /// Invalid callback
    BadCallback,
    /// Call is unsupported
    Unsupported,
    /// Bad request
    BadRequest,
    /// Access denied
    AccessDenied,
    /// Internal error has occured
    InternalError,
    /// Memory allocation failed
    MemoryAllocationFailed,
    /// Invocation has failed
    InvokeFailed,
    /// Already consumed
    AlreadyConsumed,
    /// Memory access violation
    MemoryAccessViolation,
    /// Some other unhandled error. If you see this, it's probably a bug.
    UnknownError,
}

/// The human readable text of each bus error.
pub open spec fn bus_error_text(e: VirtualBusError) -> Seq<char> {
    match e {
        VirtualBusError::Serialization => "serialization failed"@,
        VirtualBusError::Deserialization => "deserialization failed"@,
        VirtualBusError::InvalidWapm => "invalid wapm"@,
        VirtualBusError::FetchFailed => "fetch failed"@,
        VirtualBusError::CompileError => "compile error"@,
        VirtualBusError::InvalidABI => "WAPM process has an invalid ABI"@,
        VirtualBusError::Aborted => "call aborted"@,
        VirtualBusError::BadHandle => "bad handle"@,
        VirtualBusError::InvalidTopic => "invalid topic"@,
        VirtualBusError::BadCallback => "invalid callback"@,
        VirtualBusError::Unsupported => "unsupported"@,
        VirtualBusError::BadRequest => "bad request"@,
        VirtualBusError::AccessDenied => "access denied"@,
        VirtualBusError::InternalError => "internal error"@,
        VirtualBusError::MemoryAllocationFailed => "memory allocation failed"@,
        VirtualBusError::InvokeFailed => "invocation has failed"@,
        VirtualBusError::AlreadyConsumed => "already consumed"@,
        VirtualBusError::MemoryAccessViolation => "memory access violation"@,
        VirtualBusError::UnknownError => "unknown error found"@,
    }
}

impl VirtualBusError {
    /// The message this error is displayed with.
    pub fn message(&self) -> (r: &'static str)
        ensures
            r@ == bus_error_text(*self),
    {
        match self {
            VirtualBusError::Serialization => "serialization failed",
            VirtualBusError::Deserialization => "deserialization failed",
            VirtualBusError::InvalidWapm => "invalid wapm",
            VirtualBusError::FetchFailed => "fetch failed",
            VirtualBusError::CompileError => "compile error",
            VirtualBusError::InvalidABI => "WAPM process has an invalid ABI",
            VirtualBusError::Aborted => "call aborted",
            VirtualBusError::BadHandle => "bad handle",
            VirtualBusError::InvalidTopic => "invalid topic",
            VirtualBusError::BadCallback => "invalid callback",
            VirtualBusError::Unsupported => "unsupported",
            VirtualBusError::BadRequest => "bad request",
            VirtualBusError::AccessDenied => "access denied",
            VirtualBusError::InternalError => "internal error",
            VirtualBusError::MemoryAllocationFailed => "memory allocation failed",
            VirtualBusError::InvokeFailed => "invocation has failed",
            VirtualBusError::AlreadyConsumed => "already consumed",
            VirtualBusError::MemoryAccessViolation => "memory access violation",
            VirtualBusError::UnknownError => "unknown error found",
        }
    }
}

/// Something that happened on an invocation.
#[derive(Debug)]
pub enum BusInvocationEvent {
    /// The server has sent some out-of-band data to you
    Callback {
        /// Topic that this call relates to
        topic_hash: u128,
        /// Format of the data we received
        format: BusDataFormat,
        /// Data passed in the call
        data: Vec<u8>,
    },
    /// The service has a responded to your call
    Response {
        /// Format of the data we received
        format: BusDataFormat,
        /// Data returned by the call
        data: Vec<u8>,
    },
    /// The service has responded with a fault
    Fault {
        /// Fault code that was raised
        fault: VirtualBusError,
    },
}

/// What accepting an instant invocation hands over: a new instant invocation that
/// delivers the stored event, or the invocation it was told to forward to.
#[derive(Debug)]
pub enum Accepted<C> {
    Instant(InstantInvocation<C>),
    Forwarded(C),
}

/// An invocation whose outcome is known when it is created.
///
/// `C` is the type of the invocation it may forward to once accepted.
#[derive(Debug)]
pub struct InstantInvocation<C> {
    val: Option<BusInvocationEvent>,
    err: Option<VirtualBusError>,
    call: Option<C>,
}

impl<C> InstantInvocation<C> {
    /// The event still to be delivered.
    pub closed spec fn pending_event(&self) -> Option<BusInvocationEvent> {
        self.val
    }

    /// The fault still to be delivered.
    pub closed spec fn pending_fault(&self) -> Option<VirtualBusError> {
        self.err
    }

    /// The invocation still to be handed over.
    pub closed spec fn pending_call(&self) -> Option<C> {
        self.call
    }

    /// An invocation built from its three parts.
    pub closed spec fn spec_new(
        val: Option<BusInvocationEvent>,
        err: Option<VirtualBusError>,
        call: Option<C>,
    ) -> Self {
        InstantInvocation { val, err, call }
    }

    /// What the next acceptance poll yields: the fault first, then the event (as a new
    /// invocation that delivers it), then the forwarded call, and once all are gone the
    /// error `AlreadyConsumed`.
    pub open spec fn spec_poll_outcome(&self) -> BusResult<Accepted<C>> {
        if let Some(e) = self.pending_fault() {
            Err(e)
        } else if let Some(v) = self.pending_event() {
            Ok(Accepted::Instant(Self::spec_new(Some(v), None, None)))
        } else if let Some(c) = self.pending_call() {
            Ok(Accepted::Forwarded(c))
        } else {
            Err(VirtualBusError::AlreadyConsumed)
        }
    }

    /// The state left after an acceptance poll: whatever was delivered is gone.
    pub open spec fn spec_after_poll(&self) -> Self {
        if self.pending_fault() is Some {
            Self::spec_new(self.pending_event(), None, self.pending_call())
        } else if self.pending_event() is Some {
            Self::spec_new(None, None, self.pending_call())
        } else {
            Self::spec_new(None, None, None)
        }
    }

    /// What the next event poll yields: the pending event, or a fault once it is gone.
    pub open spec fn spec_event_outcome(&self) -> BusInvocationEvent {
        match self.pending_event() {
            Some(v) => v,
            None => BusInvocationEvent::Fault { fault: VirtualBusError::AlreadyConsumed },
        }
    }

    /// The state left after an event poll: the event is gone.
    pub open spec fn spec_after_event(&self) -> Self {
        Self::spec_new(None, self.pending_fault(), self.pending_call())
    }

    /// An invocation that has already been answered with `data` in `format`.
    pub fn response(format: BusDataFormat, data: Vec<u8>) -> (r: Self)
        ensures
            r == Self::spec_new(Some(BusInvocationEvent::Response { format, data }), None, None),
    {
        InstantInvocation {
            val: Some(BusInvocationEvent::Response { format, data }),
            err: None,
            call: None,
        }
    }

    /// An invocation that has already failed with `err`.
    pub fn fault(err: VirtualBusError) -> (r: Self)
        ensures
            r == Self::spec_new(None, Some(err), None),
    {
        InstantInvocation { val: None, err: Some(err), call: None }
    }

    /// An invocation that hands over to `val` once accepted.
    pub fn call(val: C) -> (r: Self)
        ensures
            r == Self::spec_new(None, None, Some(val)),
    {
        InstantInvocation { val: None, err: None, call: Some(val) }
    }
}

/// A bus that supports nothing.
#[derive(Debug, Default)]
pub struct UnsupportedVirtualBus {}

/// A spawner that supports nothing.
#[derive(Debug, Default)]
pub struct UnsupportedVirtualBusSpawner {}

/// An invocation built from its three parts holds exactly those parts as its pending event,
/// fault and call, and every invocation is the one built from what it holds.
pub proof fn lemma_instant_parts<C>(
    i: InstantInvocation<C>,
    val: Option<BusInvocationEvent>,
    err: Option<VirtualBusError>,
    call: Option<C>,
)
    ensures
        InstantInvocation::<C>::spec_new(val, err, call).pending_event() == val,
        InstantInvocation::<C>::spec_new(val, err, call).pending_fault() == err,
        InstantInvocation::<C>::spec_new(val, err, call).pending_call() == call,
        i == InstantInvocation::<C>::spec_new(i.pending_event(), i.pending_fault(), i.pending_call()),
{
}

/// An invocation answered on the spot hands over its outcome exactly once: a response is
/// accepted as an invocation that yields the response and then `AlreadyConsumed`; a fault is
/// reported once; a forwarded call is handed over once; any further acceptance poll fails
/// with `AlreadyConsumed`.
pub proof fn lemma_instant_invocation_answers_once<C>(
    format: BusDataFormat,
    data: Vec<u8>,
    err: VirtualBusError,
    call: C,
)
    ensures
        ({
            let s = InstantInvocation::<C>::spec_new(
                Some(BusInvocationEvent::Response { format, data }),
                None,
                None,
            );
            &&& s.spec_poll_outcome() matches Ok(Accepted::Instant(inv)) && inv.spec_event_outcome()
                == BusInvocationEvent::Response { format, data }
                && inv.spec_after_event().spec_event_outcome() == BusInvocationEvent::Fault {
                fault: VirtualBusError::AlreadyConsumed,
            }
            &&& s.spec_after_poll().spec_poll_outcome() == Err::<Accepted<C>, VirtualBusError>(
                VirtualBusError::AlreadyConsumed,
            )
            &&& s.spec_event_outcome() == BusInvocationEvent::Response { format, data }
            &&& s.spec_after_event().spec_event_outcome() == BusInvocationEvent::Fault {
                fault: VirtualBusError::AlreadyConsumed,
            }
        }),
        ({
            let s = InstantInvocation::<C>::spec_new(None, Some(err), None);
            &&& s.spec_poll_outcome() == Err::<Accepted<C>, VirtualBusError>(err)
            &&& s.spec_after_poll().spec_poll_outcome() == Err::<Accepted<C>, VirtualBusError>(
                VirtualBusError::AlreadyConsumed,
            )
        }),
        ({
            let s = InstantInvocation::<C>::spec_new(None, None, Some(call));
            &&& s.spec_poll_outcome() == Ok::<Accepted<C>, VirtualBusError>(Accepted::Forwarded(call))
            &&& s.spec_after_poll().spec_poll_outcome() == Err::<Accepted<C>, VirtualBusError>(
                VirtualBusError::AlreadyConsumed,
            )
        }),
{
}


/// A scope that finishes at some point.
pub trait VirtualBusScope {
    /// Whether the scope has finished; `false` while it is still running.
    fn poll_finished(&mut self) -> bool;
}

/// Something on which calls can be made.
pub trait VirtualBusInvokable {
    /// What a call hands back while it waits to be accepted.
    type Invoked;

    /// Calls the service behind `topic_hash` with `buf` in `format`.
    fn invoke(&self, topic_hash: u128, format: BusDataFormat, buf: Vec<u8>) -> Self::Invoked;
}

/// A call that waits to be accepted.
pub trait VirtualBusInvoked {
    /// The invocation a call becomes once accepted.
    type Invocation;

    /// The outcome of the call once it has been accepted or refused; `None` while it waits.
    fn poll_invoked(&mut self) -> Option<BusResult<Self::Invocation>>;
}

/// A process reachable over the bus.
pub trait VirtualBusProcess: VirtualBusScope + VirtualBusInvokable {
    /// The exit code, once the process has exited.
    fn exit_code(&self) -> Option<u32>;

    /// Whether the process is ready to take calls; `false` while it is starting.
    fn poll_ready(&mut self) -> bool;
}

/// An accepted call, on which events arrive.
pub trait VirtualBusInvocation: VirtualBusInvokable {
    /// The next event of the call; `None` while none has arrived.
    fn poll_event(&mut self) -> Option<BusInvocationEvent>;
}

/// A call made to this process by another one.
#[derive(Debug)]
pub struct BusCallEvent<C> {
    /// Topic the call relates to.
    pub topic_hash: u128,
    /// The call itself, through which it is answered.
    pub called: C,
    /// Format of the data passed in the call.
    pub format: BusDataFormat,
    /// Data passed in the call.
    pub data: Vec<u8>,
}

/// A call received by this process.
pub trait VirtualBusCalled: Sized {
    /// The next call nested in this one; `None` while there is none.
    fn poll(&mut self) -> Option<BusCallEvent<Self>>;

    /// Sends out-of-band data back to the caller.
    fn callback(&self, topic_hash: u128, format: BusDataFormat, buf: Vec<u8>);

    /// Answers the call with a fault, which ends it.
    fn fault(self, fault: VirtualBusError);

    /// Answers the call with `buf` in `format`.
    fn reply(&self, format: BusDataFormat, buf: Vec<u8>);
}

/// Receives the calls made to this process.
pub trait VirtualBusListener {
    /// The calls it receives.
    type Called: VirtualBusCalled;

    /// The next call received; `None` while there is none.
    fn poll(&self) -> Option<BusCallEvent<Self::Called>>;
}

impl<C> VirtualBusInvokable for InstantInvocation<C> {
    type Invoked = InstantInvocation<C>;

    fn invoke(&self, topic_hash: u128, format: BusDataFormat, buf: Vec<u8>) -> (r: InstantInvocation<C>)
        ensures
            r == Self::spec_new(None, Some(VirtualBusError::InvalidTopic), None),
    {
        InstantInvocation { val: None, err: Some(VirtualBusError::InvalidTopic), call: None }
    }
}

impl<C> VirtualBusInvoked for InstantInvocation<C> {
    type Invocation = Accepted<C>;

    fn poll_invoked(&mut self) -> (polled: Option<BusResult<Accepted<C>>>)
        ensures
            polled == Some(old(self).spec_poll_outcome()),
            *final(self) == old(self).spec_after_poll(),
    {
        if let Some(err) = self.err.take() {
            return Some(Err(err));
        }
        if let Some(val) = self.val.take() {
            return Some(Ok(Accepted::Instant(InstantInvocation { val: Some(val), err: None, call: None })));
        }
        match self.call.take() {
            Some(val) => Some(Ok(Accepted::Forwarded(val))),
            None => Some(Err(VirtualBusError::AlreadyConsumed)),
        }
    }
}

impl<C> VirtualBusInvocation for InstantInvocation<C> {
    fn poll_event(&mut self) -> (polled: Option<BusInvocationEvent>)
        ensures
            polled == Some(old(self).spec_event_outcome()),
            *final(self) == old(self).spec_after_event(),
    {
        match self.val.take() {
            Some(val) => Some(val),
            None => Some(BusInvocationEvent::Fault { fault: VirtualBusError::AlreadyConsumed }),
        }
    }
}

} // verus!
