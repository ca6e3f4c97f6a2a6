//! Values shared by every part of the framework: status codes, the two
//! sentinels a configuration callback may answer with, and the views over
//! memory that nginx owns.
use vstd::prelude::*;
use vstd::std_specs::convert::FromSpecImpl;

pub mod array;
pub mod buffer;
pub mod pool;

pub use array::Array;
pub use buffer::{Buffer, MemoryBuffer, MutableBuffer, NgxBuf, TemporaryBuffer};
pub use pool::{Allocation, Cleanup, Placement, Pool, PoolRequest};

verus! {

/// The operation succeeded.
pub const NGX_OK: isize = 0;

/// The operation failed.
pub const NGX_ERROR: isize = -1;

/// The operation is not finished and will be taken up again.
pub const NGX_AGAIN: isize = -2;

/// The resource is busy.
pub const NGX_BUSY: isize = -3;

/// The operation is complete and nothing further is to be done.
pub const NGX_DONE: isize = -4;

/// The handler passes the request on to the next one.
pub const NGX_DECLINED: isize = -5;

/// The operation was given up.
pub const NGX_ABORT: isize = -6;

/// What a configuration callback answers on success: the null pointer.
pub const NGX_CONF_OK: usize = 0;

/// What a configuration callback answers on failure: the address with every
/// bit set. nginx compares against it and never reads through it.
pub const NGX_CONF_ERROR: usize = usize::MAX;

/// The address of something nginx owns, never null.
///
/// It stands where a non-null pointer would: it can be made only from an
/// address that was tested, and it says nothing about what lies there.
#[derive(Clone, Copy, PartialEq, Eq, Debug, Structural)]
pub struct Addr {
    addr: usize,
}

impl View for Addr {
    type V = usize;

    closed spec fn view(&self) -> usize {
        self.addr
    }
}

impl Addr {
    #[verifier::type_invariant]
    spec fn not_null(self) -> bool {
        self.addr != 0
    }

    /// The value that stands for the address `addr`, which should not be
    /// null.
    pub closed spec fn at(addr: usize) -> Addr {
        Addr { addr }
    }

    /// A value of this type is nothing more than the address it stands for.
    pub proof fn lemma_at(addr: usize, other: Addr)
        ensures
            Addr::at(addr)@ == addr,
            Addr::at(other@) == other,
    {
    }

    /// The address, unless it is null.
    pub fn new(addr: usize) -> (tested: Option<Addr>)
        ensures
            tested == (if addr == 0 {
                None
            } else {
                Some(Addr::at(addr))
            }),
            tested matches Some(a) ==> a@ == addr,
    {
        if addr == 0 {
            None
        } else {
            Some(Addr { addr })
        }
    }

    /// The address `addr`, which must not be null.
    pub fn from_nonzero(addr: usize) -> (tested: Addr)
        requires
            addr != 0,
        ensures
            tested == Addr::at(addr),
            tested@ == addr,
    {
        Addr { addr }
    }

    /// The address as a number.
    pub fn get(&self) -> (addr: usize)
        ensures
            addr == self@,
            addr != 0,
    {
        proof {
            use_type_invariant(self);
        }
        self.addr
    }

    /// An address that is aligned for `T` and points at nothing: what stands
    /// for a value that takes no room.
    pub fn dangling<T>() -> (addr: Addr)
        ensures
            addr@ == vstd::layout::align_of::<T>(),
            addr == Addr::at(vstd::layout::align_of::<T>() as usize),
    {
        vstd::layout::layout_for_type_is_valid::<T>();
        Addr { addr: core::mem::align_of::<T>() }
    }
}

/// A status code as nginx passes it between handlers.
#[derive(Clone, Copy, PartialEq, Eq, Debug, Structural)]
pub struct Status(pub isize);

impl Status {
    /// Whether this is the code for success.
    pub fn is_ok(&self) -> (ok: bool)
        ensures
            ok == (self.0 == NGX_OK),
    {
        self.0 == NGX_OK
    }
}

impl From<Status> for isize {
    fn from(val: Status) -> (code: isize) {
        val.0
    }
}

impl FromSpecImpl<Status> for isize {
    open spec fn obeys_from_spec() -> bool {
        true
    }

    open spec fn from_spec(val: Status) -> isize {
        val.0
    }
}

/// The sentinel for the outcome of a configuration callback.
pub open spec fn conf_status_of(ok: bool) -> usize {
    if ok {
        NGX_CONF_OK
    } else {
        NGX_CONF_ERROR
    }
}

/// Turns the outcome of a typed callback into the sentinel nginx expects:
/// null for success, the error address for any failure. No message travels
/// this way.
pub fn conf_status<E>(outcome: &Result<(), E>) -> (status: usize)
    ensures
        status == conf_status_of(outcome is Ok),
{
    match outcome {
        Ok(_) => NGX_CONF_OK,
        Err(_) => NGX_CONF_ERROR,
    }
}

/// The status code for the outcome of a callback that can only succeed or
/// fail.
pub open spec fn int_status_of(ok: bool) -> isize {
    if ok {
        NGX_OK
    } else {
        NGX_ERROR
    }
}

/// Turns the outcome of a typed callback into a status code: `NGX_OK` for
/// success, `NGX_ERROR` for any failure.
pub fn int_status<E>(outcome: &Result<(), E>) -> (code: isize)
    ensures
        code == int_status_of(outcome is Ok),
{
    match outcome {
        Ok(_) => NGX_OK,
        Err(_) => NGX_ERROR,
    }
}

/// The pointer a creating callback hands to nginx: where the value was put,
/// or null when it could not be put anywhere.
pub fn conf_pointer(placed: Option<Addr>) -> (pointer: usize)
    ensures
        pointer == (match placed {
            Some(at) => at@,
            None => 0usize,
        }),
        pointer == 0 <==> placed is None,
{
    match placed {
        Some(at) => at.get(),
        None => 0,
    }
}

} // verus!
