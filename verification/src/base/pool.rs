//! The pool: memory that nginx hands out and takes back all at once.
//!
//! A pool gives out blocks and keeps a list of cleanup entries, each a
//! destructor and the address to run it on; when nginx destroys the pool it
//! runs the entries and frees the blocks. Putting a value into a pool
//! therefore takes two answers from nginx, one for the block and one for the
//! cleanup entry, and the second is asked for only after the first came back
//! good. [`Allocation`] is the record of how far such an exchange has come:
//! each step names what nginx is to be asked next, and
//! [`Allocation::resume`] takes in the answer.
use vstd::prelude::*;
use vstd::string::StringSliceAdditionalSpecFns;

use crate::base::buffer::{Buffer, MemoryBuffer, NgxBuf, TemporaryBuffer};
use crate::base::Addr;

verus! {

/// One entry of a pool's cleanup list: when the pool is destroyed, the
/// destructor stored at `entry` runs on the value at `data`.
#[derive(Clone, Copy, PartialEq, Eq, Debug, Structural)]
pub struct Cleanup {
    /// Where the entry lies.
    pub entry: Addr,
    /// Where the value lies whose destructor the entry holds.
    pub data: Addr,
}

/// What is to be done to the pool next. `T` is the type of the value being
/// put there.
#[derive(Debug, PartialEq, Eq)]
pub enum PoolRequest<T> {
    /// Reserve `size` bytes and answer with where they start, or with null.
    Alloc { pool: Addr, size: usize },
    /// Reserve `size` bytes, clear them, and answer with where they start, or
    /// with null.
    AllocZeroed { pool: Addr, size: usize },
    /// Move `value` to `block`; then reserve a cleanup entry with no room of
    /// its own and answer with where it lies, or with null.
    Place { pool: Addr, block: Addr, value: T },
    /// Store in the entry the destructor of `T` and the address of the
    /// value. The entry's link to the other entries is nginx's and stays as it
    /// is. Nothing is answered.
    Register { cleanup: Cleanup },
    /// Run the destructor of the value at `block` now; its memory stays with
    /// the pool. Nothing is answered.
    DropInPlace { block: Addr },
}

/// How far putting something into a pool has come.
#[derive(Debug, PartialEq, Eq)]
pub enum Allocation<T> {
    /// nginx has been asked for plain memory.
    AwaitMemory,
    /// nginx has been asked for a block to hold `value`.
    AwaitBlock { pool: Addr, value: T },
    /// The value lies at `block`, and nginx has been asked for a cleanup
    /// entry.
    AwaitCleanup { block: Addr },
    /// The exchange is over: `result` is where the memory or the value lies,
    /// nothing if there is none.
    Done { result: Option<Addr> },
}

impl<T> Allocation<T> {
    /// The exchange after nginx answered `reply`, and what is to be done
    /// next.
    ///
    /// Plain memory is there or not. A missing block ends the exchange with
    /// nothing, and the value is gone with it. A block is followed by the
    /// request to move the value there and to reserve a cleanup entry. With
    /// the entry the value is registered and the exchange ends with its
    /// address; without it the value is dropped where it lies, and the
    /// exchange ends with nothing. An exchange that is over stays so.
    pub open spec fn step(self, reply: usize) -> (Allocation<T>, Option<PoolRequest<T>>) {
        match self {
            Allocation::AwaitMemory => (
                Allocation::Done {
                    result: if reply == 0 {
                        None
                    } else {
                        Some(Addr::at(reply))
                    },
                },
                None,
            ),
            Allocation::AwaitBlock { pool, value } => if reply == 0 {
                (Allocation::Done { result: None }, None)
            } else {
                (
                    Allocation::AwaitCleanup { block: Addr::at(reply) },
                    Some(PoolRequest::Place { pool, block: Addr::at(reply), value }),
                )
            },
            Allocation::AwaitCleanup { block } => if reply == 0 {
                (Allocation::Done { result: None }, Some(PoolRequest::DropInPlace { block }))
            } else {
                (
                    Allocation::Done { result: Some(block) },
                    Some(PoolRequest::Register { cleanup: Cleanup { entry: Addr::at(reply), data: block } }),
                )
            },
            Allocation::Done { result } => (Allocation::Done { result }, None),
        }
    }

    /// Whether the exchange is over.
    pub fn is_done(&self) -> (done: bool)
        ensures
            done == (self is Done),
    {
        match self {
            Allocation::Done { .. } => true,
            _ => false,
        }
    }

    /// Where the memory or the value lies, once the exchange is over and has
    /// succeeded.
    pub fn result(&self) -> (result: Option<Addr>)
        ensures
            result == (match *self {
                Allocation::Done { result } => result,
                _ => None,
            }),
    {
        match self {
            Allocation::Done { result } => *result,
            _ => None,
        }
    }

    /// Takes in nginx's answer to the last request.
    pub fn resume(self, reply: usize) -> (next: (Allocation<T>, Option<PoolRequest<T>>))
        ensures
            next == self.step(reply),
    {
        match self {
            Allocation::AwaitMemory => (Allocation::Done { result: Addr::new(reply) }, None),
            Allocation::AwaitBlock { pool, value } => match Addr::new(reply) {
                None => (Allocation::Done { result: None }, None),
                Some(block) => (Allocation::AwaitCleanup { block }, Some(PoolRequest::Place { pool, block, value })),
            },
            Allocation::AwaitCleanup { block } => match Pool::add_cleanup_for_value(block, reply) {
                Err(_) => (Allocation::Done { result: None }, Some(PoolRequest::DropInPlace { block })),
                Ok(cleanup) => (Allocation::Done { result: Some(block) }, Some(PoolRequest::Register { cleanup })),
            },
            Allocation::Done { result } => (Allocation::Done { result }, None),
        }
    }
}

/// A pool of nginx's, known by its address.
pub struct Pool {
    pool: Addr,
}

impl Pool {
    /// The address of the pool.
    pub closed spec fn addr(&self) -> Addr {
        self.pool
    }

    /// The request for `size` bytes of this pool.
    fn palloc(&mut self, size: usize) -> (request: PoolRequest<u8>)
        ensures
            final(self).addr() == old(self).addr(),
            request == (PoolRequest::<u8>::Alloc { pool: old(self).addr(), size }),
    {
        PoolRequest::Alloc { pool: self.pool, size }
    }

    /// The pool at `pool`, which must not be null.
    pub fn from_ngx_pool(pool: usize) -> (wrapped: Pool)
        requires
            pool != 0,
        ensures
            wrapped.addr()@ == pool,
            wrapped.addr() == Addr::at(pool),
    {
        Pool { pool: Addr::from_nonzero(pool) }
    }

    /// The address of the pool.
    pub fn as_ptr(&self) -> (pool: Addr)
        ensures
            pool == self.addr(),
    {
        self.pool
    }

    /// Wraps the buffer that nginx made in this pool when asked for one:
    /// `reply` is where its descriptor lies and what the descriptor holds,
    /// nothing if nginx had no room.
    pub fn create_buffer(&mut self, reply: Option<(Addr, NgxBuf)>) -> (buffer: Option<TemporaryBuffer>)
        ensures
            final(self).addr() == old(self).addr(),
            match reply {
                Some((at, made)) => buffer matches Some(wrapped) && wrapped.addr() == at && wrapped.ngx_buf() == made,
                None => buffer is None,
            },
    {
        match reply {
            None => None,
            Some((at, buf)) => Some(TemporaryBuffer::from_ngx_buf(at, buf)),
        }
    }

    /// Fills the buffer that nginx made in this pool for `str`: `reply` is as
    /// for [`Pool::create_buffer`]. The bytes of `str` become the bytes still
    /// to be processed, and `last` moves to their end. Without a buffer, or
    /// with one whose memory from `pos` on is too short for `str`, there is
    /// nothing.
    pub fn create_buffer_from_str(&mut self, str: &str, reply: Option<(Addr, NgxBuf)>) -> (buffer: Option<
        TemporaryBuffer,
    >)
        ensures
            final(self).addr() == old(self).addr(),
            match reply {
                Some((at, made)) => if made.pos <= made.end && str.spec_bytes().len() <= made.end - made.pos {
                    &&& buffer matches Some(filled)
                    &&& filled.addr() == at
                    &&& filled.ngx_buf().wf()
                    &&& filled.ngx_buf().data@ == str.spec_bytes()
                    &&& filled.ngx_buf() == (NgxBuf {
                        last: (made.pos + str.spec_bytes().len()) as usize,
                        data: filled.ngx_buf().data,
                        ..made
                    })
                } else {
                    buffer is None
                },
                None => buffer is None,
            },
    {
        let (at, made) = match reply {
            Some(reply) => reply,
            None => return None,
        };
        let bytes = str.as_bytes();
        if made.pos > made.end || bytes.len() > made.end - made.pos {
            return None;
        }
        let NgxBuf { start, pos, last: _, end, memory, last_buf, last_in_chain, data: _ } = made;
        let filled = NgxBuf {
            start,
            pos,
            last: pos + bytes.len(),
            end,
            memory,
            last_buf,
            last_in_chain,
            data: vstd::slice::slice_to_vec(bytes),
        };
        Some(TemporaryBuffer::from_ngx_buf(at, filled))
    }

    /// The buffer over `str`, whose bytes live as long as the process and
    /// start at `start`. Its descriptor is a value like any other:
    /// [`NgxBuf::for_static_str`] makes it and [`Pool::allocate`] puts it into
    /// the pool; `placed` is how that ended. The buffer is flagged as memory
    /// that must not be written to.
    pub fn create_buffer_from_static_str(&mut self, str: &'static str, start: usize, placed: Option<Addr>) -> (buffer:
        Option<MemoryBuffer>)
        requires
            start + str.spec_bytes().len() <= usize::MAX,
        ensures
            final(self).addr() == old(self).addr(),
            placed is None <==> buffer is None,
            buffer matches Some(made) ==> {
                &&& made.addr() == placed->0
                &&& made.ngx_buf().wf()
                &&& made.ngx_buf().data@ == str.spec_bytes()
                &&& made.ngx_buf() == (NgxBuf {
                    start,
                    pos: start,
                    last: (start + str.spec_bytes().len()) as usize,
                    end: (start + str.spec_bytes().len()) as usize,
                    memory: true,
                    last_buf: false,
                    last_in_chain: false,
                    data: made.ngx_buf().data,
                })
            },
    {
        let at = match placed {
            Some(at) => at,
            None => return None,
        };
        let mut buf = NgxBuf::for_static_str(str, start);
        buf.memory = true;
        Some(MemoryBuffer::from_ngx_buf(at, buf))
    }

    /// Takes in nginx's answer to the request for a cleanup entry for the
    /// value at `value`: with an entry, what is to be stored in it; with null,
    /// a failure.
    fn add_cleanup_for_value(value: Addr, entry: usize) -> (cleanup: Result<Cleanup, ()>)
        ensures
            cleanup == (if entry == 0 {
                Err::<Cleanup, ()>(())
            } else {
                Ok::<Cleanup, ()>(Cleanup { entry: Addr::at(entry), data: value })
            }),
    {
        match Addr::new(entry) {
            None => Err(()),
            Some(entry) => Ok(Cleanup { entry, data: value }),
        }
    }

    /// Begins to reserve cleared memory for a `T`, with no cleanup entry.
    ///
    /// A `T` that takes no room needs none: the exchange is over at once, with
    /// an address that points at nothing, and the pool is not asked. Any other
    /// `T` makes one request, and [`Allocation::resume`] ends the exchange with
    /// the block or with nothing.
    pub fn allocate_uninit_zeroed<T>(&mut self) -> (begun: (Allocation<T>, Option<PoolRequest<T>>))
        ensures
            final(self).addr() == old(self).addr(),
            begun == Self::zeroed_begun::<T>(old(self).addr()),
    {
        if core::mem::size_of::<T>() == 0 {
            return (Allocation::Done { result: Some(Addr::dangling::<T>()) }, None);
        }
        (Allocation::AwaitMemory, Some(PoolRequest::AllocZeroed { pool: self.pool, size: core::mem::size_of::<T>() }))
    }

    /// How [`Pool::allocate_uninit_zeroed`] begins in the pool at `pool`.
    pub open spec fn zeroed_begun<T>(pool: Addr) -> (Allocation<T>, Option<PoolRequest<T>>) {
        if vstd::layout::size_of::<T>() == 0 {
            (Allocation::Done { result: Some(Addr::at(vstd::layout::align_of::<T>() as usize)) }, None)
        } else {
            (
                Allocation::AwaitMemory,
                Some(PoolRequest::AllocZeroed { pool, size: vstd::layout::size_of::<T>() as usize }),
            )
        }
    }

    /// Begins to put `value` into the pool, where its destructor will run when
    /// the pool is destroyed.
    ///
    /// A value that takes no room is not put anywhere: the exchange is over at
    /// once, with an address that points at nothing, and the pool is not
    /// asked. Any other value waits for a block; [`Allocation::resume`] says
    /// how the exchange goes on.
    pub fn allocate<T>(&mut self, value: T) -> (begun: (Allocation<T>, Option<PoolRequest<T>>))
        ensures
            final(self).addr() == old(self).addr(),
            begun == Self::allocate_begun(old(self).addr(), value),
    {
        if core::mem::size_of::<T>() == 0 {
            return (Allocation::Done { result: Some(Addr::dangling::<T>()) }, None);
        }
        let pool = self.pool;
        (Allocation::AwaitBlock { pool, value }, Some(PoolRequest::Alloc { pool, size: core::mem::size_of::<T>() }))
    }

    /// How [`Pool::allocate`] begins in the pool at `pool`.
    pub open spec fn allocate_begun<T>(pool: Addr, value: T) -> (Allocation<T>, Option<PoolRequest<T>>) {
        if vstd::layout::size_of::<T>() == 0 {
            (Allocation::Done { result: Some(Addr::at(vstd::layout::align_of::<T>() as usize)) }, None)
        } else {
            (
                Allocation::AwaitBlock { pool, value },
                Some(PoolRequest::Alloc { pool, size: vstd::layout::size_of::<T>() as usize }),
            )
        }
    }

    /// Begins to reserve `len` bytes. The pool is asked whatever `len` is, and
    /// [`Allocation::resume`] ends the exchange with the block or with nothing.
    pub fn allocate_raw(&mut self, len: usize) -> (begun: (Allocation<u8>, Option<PoolRequest<u8>>))
        ensures
            final(self).addr() == old(self).addr(),
            begun == (
                Allocation::<u8>::AwaitMemory,
                Some(PoolRequest::<u8>::Alloc { pool: old(self).addr(), size: len }),
            ),
    {
        let request = self.palloc(len);
        (Allocation::AwaitMemory, Some(request))
    }
}

/// What carrying out `request` adds to the pool's cleanup list.
pub open spec fn registered<T>(request: Option<PoolRequest<T>>) -> Seq<Cleanup> {
    match request {
        Some(PoolRequest::Register { cleanup }) => seq![cleanup],
        _ => Seq::empty(),
    }
}

/// The values whose destructor runs at once when `request` is carried out.
pub open spec fn dropped<T>(request: Option<PoolRequest<T>>) -> Seq<Addr> {
    match request {
        Some(PoolRequest::DropInPlace { block }) => seq![block],
        _ => Seq::empty(),
    }
}

/// One whole exchange for putting a value of a type that takes room into a
/// pool: nginx answers `block` to the request for memory and, if it is asked,
/// `entry` to the request for a cleanup entry.
pub struct Placement<T> {
    /// The pool.
    pub pool: Addr,
    /// The value.
    pub value: T,
    /// What nginx answers to the request for memory.
    pub block: usize,
    /// What nginx answers to the request for a cleanup entry.
    pub entry: usize,
}

impl<T> Placement<T> {
    /// Where the value ends up, nothing if the exchange fails.
    pub open spec fn result(self) -> Option<Addr> {
        if self.block != 0 && self.entry != 0 {
            Some(Addr::at(self.block))
        } else {
            None
        }
    }

    /// What the exchange adds to the pool's cleanup list, request by request.
    pub open spec fn cleanups(self) -> Seq<Cleanup> {
        let begun = Pool::allocate_begun(self.pool, self.value);
        let placed = begun.0.step(self.block);
        let ended = placed.0.step(self.entry);
        registered(begun.1) + registered(placed.1) + if placed.0 is Done {
            Seq::empty()
        } else {
            registered(ended.1)
        }
    }

    /// The values that the exchange has dropped at once, request by request.
    pub open spec fn drops(self) -> Seq<Addr> {
        let begun = Pool::allocate_begun(self.pool, self.value);
        let placed = begun.0.step(self.block);
        let ended = placed.0.step(self.entry);
        dropped(begun.1) + dropped(placed.1) + if placed.0 is Done {
            Seq::empty()
        } else {
            dropped(ended.1)
        }
    }

    /// Where the exchange stands after the answers that it asked for.
    pub open spec fn end(self) -> Allocation<T> {
        let begun = Pool::allocate_begun(self.pool, self.value);
        let placed = begun.0.step(self.block);
        if placed.0 is Done {
            placed.0
        } else {
            placed.0.step(self.entry).0
        }
    }
}

/// The cleanup list that a run of exchanges leaves in a pool that had none:
/// what each of them added, in the order in which they were made.
pub open spec fn cleanup_list<T>(run: Seq<Placement<T>>) -> Seq<Cleanup>
    decreases run.len(),
{
    if run.len() == 0 {
        Seq::empty()
    } else {
        cleanup_list(run.drop_last()) + run.last().cleanups()
    }
}

/// A value that takes no room is never put into the pool: the exchange is
/// over before anything is asked, and it has succeeded.
pub proof fn lemma_zero_sized_leaves_pool_alone<T>(pool: Addr, value: T)
    requires
        vstd::layout::size_of::<T>() == 0,
    ensures
        Pool::allocate_begun(pool, value).1 is None,
        Pool::allocate_begun(pool, value).0 is Done,
        Pool::allocate_begun(pool, value).0->result is Some,
        Pool::zeroed_begun::<T>(pool).1 is None,
        Pool::zeroed_begun::<T>(pool).0 is Done,
        Pool::zeroed_begun::<T>(pool).0->result is Some,
{
}

/// A value is registered for cleanup exactly if putting it into the pool
/// succeeded, then once and with its own address; it is dropped at once
/// exactly if it was moved into a block and no cleanup entry could be had. So
/// its destructor is due once in either case, and no entry stands for a value
/// that is not there.
pub proof fn lemma_placement_registers_once<T>(placement: Placement<T>)
    requires
        vstd::layout::size_of::<T>() != 0,
    ensures
        placement.end() == (Allocation::<T>::Done { result: placement.result() }),
        placement.result() matches Some(at) ==> at@ == placement.block,
        placement.result() is Some ==> placement.cleanups() == seq![
            Cleanup { entry: Addr::at(placement.entry), data: placement.result()->0 },
        ] && placement.drops() == Seq::<Addr>::empty(),
        placement.result() is None ==> placement.cleanups() == Seq::<Cleanup>::empty(),
        placement.block != 0 && placement.entry == 0 ==> placement.drops() == seq![Addr::at(placement.block)],
        placement.block == 0 ==> placement.drops() == Seq::<Addr>::empty(),
{
    Addr::lemma_at(placement.block, placement.pool);
    let begun = Pool::allocate_begun(placement.pool, placement.value);
    let placed = begun.0.step(placement.block);
    if placement.block != 0 {
        let ended = placed.0.step(placement.entry);
        if placement.entry != 0 {
            assert(placement.cleanups() =~= seq![
                Cleanup { entry: Addr::at(placement.entry), data: placement.result()->0 },
            ]);
            assert(placement.drops() =~= Seq::<Addr>::empty());
        } else {
            assert(placement.cleanups() =~= Seq::<Cleanup>::empty());
            assert(placement.drops() =~= seq![Addr::at(placement.block)]);
        }
    } else {
        assert(placement.cleanups() =~= Seq::<Cleanup>::empty());
        assert(placement.drops() =~= Seq::<Addr>::empty());
    }
}

/// The cleanup list grows by one entry for each exchange that succeeds and by
/// none for one that fails, and a later exchange adds its entry behind those
/// of the earlier ones: the list holds the values that are in the pool, each
/// once, in the order in which they were put there.
pub proof fn lemma_cleanup_list_in_order<T>(run: Seq<Placement<T>>, next: Placement<T>)
    requires
        vstd::layout::size_of::<T>() != 0,
    ensures
        cleanup_list(Seq::<Placement<T>>::empty()) == Seq::<Cleanup>::empty(),
        next.result() is Some ==> cleanup_list(run.push(next)) == cleanup_list(run).push(
            Cleanup { entry: Addr::at(next.entry), data: next.result()->0 },
        ),
        next.result() is None ==> cleanup_list(run.push(next)) == cleanup_list(run),
{
    lemma_placement_registers_once(next);
    assert(run.push(next).drop_last() =~= run);
    assert(run.push(next).last() == next);
    if next.result() is Some {
        assert(cleanup_list(run) + next.cleanups() =~= cleanup_list(run).push(
            Cleanup { entry: Addr::at(next.entry), data: next.result()->0 },
        ));
    } else {
        assert(cleanup_list(run) + next.cleanups() =~= cleanup_list(run));
    }
}

} // verus!
