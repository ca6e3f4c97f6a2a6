//! Buffers: the descriptors through which nginx passes bytes along, and the
//! two kinds of them that a module makes.
use vstd::prelude::*;
use vstd::string::StringSliceAdditionalSpecFns;

use crate::base::Addr;

verus! {

/// What a buffer descriptor holds, as far as the framework reads and writes
/// it, together with the bytes it spans.
#[derive(Debug, PartialEq, Eq)]
pub struct NgxBuf {
    /// Where the memory behind the buffer starts.
    pub start: usize,
    /// Where the bytes still to be processed start.
    pub pos: usize,
    /// Where they end.
    pub last: usize,
    /// Where the memory behind the buffer ends.
    pub end: usize,
    /// Whether the bytes lie in memory that must not be written to.
    pub memory: bool,
    /// Whether this is the last buffer of a request.
    pub last_buf: bool,
    /// Whether this is the last buffer of a chain.
    pub last_in_chain: bool,
    /// The bytes from `pos` up to `last`.
    pub data: Vec<u8>,
}

impl NgxBuf {
    /// The marks are in order and `data` is what lies between them.
    pub open spec fn wf(&self) -> bool {
        &&& self.pos <= self.last
        &&& self.data@.len() == self.last - self.pos
    }

    /// The descriptor for bytes that live as long as the process and start at
    /// `start`: all of it is still to be processed, nothing is flagged.
    pub fn for_static_str(str: &'static str, start: usize) -> (buf: NgxBuf)
        requires
            start + str.spec_bytes().len() <= usize::MAX,
        ensures
            buf.wf(),
            buf.start == start,
            buf.pos == start,
            buf.last == start + str.spec_bytes().len(),
            buf.end == buf.last,
            !buf.memory && !buf.last_buf && !buf.last_in_chain,
            buf.data@ == str.spec_bytes(),
    {
        let end: usize = start + str.len();
        NgxBuf {
            start,
            pos: start,
            last: end,
            end,
            memory: false,
            last_buf: false,
            last_in_chain: false,
            data: vstd::slice::slice_to_vec(str.as_bytes()),
        }
    }
}

/// What every buffer offers, whichever kind it is.
pub trait Buffer {
    /// The descriptor behind the buffer.
    spec fn ngx_buf(&self) -> NgxBuf;

    /// The descriptor behind the buffer.
    fn as_ngx_buf(&self) -> (buf: &NgxBuf)
        ensures
            *buf == self.ngx_buf(),
    ;

    /// The descriptor behind the buffer, to be changed in place.
    fn as_ngx_buf_mut(&mut self) -> (buf: &mut NgxBuf)
        ensures
            *buf == old(self).ngx_buf(),
            final(self).ngx_buf() == *final(buf),
    ;

    /// The bytes still to be processed.
    fn as_bytes(&self) -> (bytes: &[u8])
        requires
            self.ngx_buf().wf(),
        ensures
            bytes@ == self.ngx_buf().data@,
            bytes@.len() == self.ngx_buf().last - self.ngx_buf().pos,
    {
        self.as_ngx_buf().data.as_slice()
    }

    /// How many bytes are still to be processed. The marks must be in order.
    fn len(&self) -> (n: usize)
        requires
            self.ngx_buf().last >= self.ngx_buf().pos,
        ensures
            n == self.ngx_buf().last - self.ngx_buf().pos,
    {
        let buf = self.as_ngx_buf();
        buf.last - buf.pos
    }

    /// Whether nothing is left to be processed.
    fn is_empty(&self) -> (empty: bool)
        requires
            self.ngx_buf().last >= self.ngx_buf().pos,
        ensures
            empty == (self.ngx_buf().last == self.ngx_buf().pos),
    {
        self.len() == 0
    }

    /// Marks or unmarks the buffer as the last of a request.
    fn set_last_buf(&mut self, last: bool)
        ensures
            final(self).ngx_buf() == (NgxBuf { last_buf: last, ..old(self).ngx_buf() }),
    {
        let buf = self.as_ngx_buf_mut();
        buf.last_buf = last;
    }

    /// Marks or unmarks the buffer as the last of a chain.
    fn set_last_in_chain(&mut self, last: bool)
        ensures
            final(self).ngx_buf() == (NgxBuf { last_in_chain: last, ..old(self).ngx_buf() }),
    {
        let buf = self.as_ngx_buf_mut();
        buf.last_in_chain = last;
    }
}

/// A buffer whose bytes may be changed.
pub trait MutableBuffer: Buffer {
    /// The bytes still to be processed, to be changed in place. Their number
    /// stays.
    fn as_bytes_mut(&mut self) -> (bytes: &mut [u8])
        requires
            old(self).ngx_buf().wf(),
        ensures
            bytes@ == old(self).ngx_buf().data@,
            final(self).ngx_buf() == (NgxBuf { data: final(self).ngx_buf().data, ..old(self).ngx_buf() }),
            final(self).ngx_buf().data@ == final(bytes)@,
    {
        let buf = self.as_ngx_buf_mut();
        buf.data.as_mut_slice()
    }
}

/// A buffer in memory that the pool handed out for the purpose: its bytes may
/// be changed.
pub struct TemporaryBuffer {
    at: Addr,
    buf: NgxBuf,
}

impl TemporaryBuffer {
    /// Where the descriptor lies.
    pub closed spec fn addr(&self) -> Addr {
        self.at
    }

    /// The buffer whose descriptor lies at `at` and holds `buf`.
    pub fn from_ngx_buf(at: Addr, buf: NgxBuf) -> (buffer: TemporaryBuffer)
        ensures
            buffer.addr() == at,
            buffer.ngx_buf() == buf,
    {
        TemporaryBuffer { at, buf }
    }

    /// Where the descriptor lies.
    pub fn as_ptr(&self) -> (at: Addr)
        ensures
            at == self.addr(),
    {
        self.at
    }
}

impl Buffer for TemporaryBuffer {
    closed spec fn ngx_buf(&self) -> NgxBuf {
        self.buf
    }

    fn as_ngx_buf(&self) -> (buf: &NgxBuf) {
        &self.buf
    }

    fn as_ngx_buf_mut(&mut self) -> (buf: &mut NgxBuf) {
        &mut self.buf
    }
}

impl MutableBuffer for TemporaryBuffer {
    fn as_bytes_mut(&mut self) -> (bytes: &mut [u8])
        ensures
            final(self).addr() == old(self).addr(),
    {
        self.buf.data.as_mut_slice()
    }
}

/// A buffer over bytes that live elsewhere and are only read.
pub struct MemoryBuffer {
    at: Addr,
    buf: NgxBuf,
}

impl MemoryBuffer {
    /// Where the descriptor lies.
    pub closed spec fn addr(&self) -> Addr {
        self.at
    }

    /// The buffer whose descriptor lies at `at` and holds `buf`.
    pub fn from_ngx_buf(at: Addr, buf: NgxBuf) -> (buffer: MemoryBuffer)
        ensures
            buffer.addr() == at,
            buffer.ngx_buf() == buf,
    {
        MemoryBuffer { at, buf }
    }

    /// Where the descriptor lies.
    pub fn as_ptr(&self) -> (at: Addr)
        ensures
            at == self.addr(),
    {
        self.at
    }
}

impl Buffer for MemoryBuffer {
    closed spec fn ngx_buf(&self) -> NgxBuf {
        self.buf
    }

    fn as_ngx_buf(&self) -> (buf: &NgxBuf) {
        &self.buf
    }

    fn as_ngx_buf_mut(&mut self) -> (buf: &mut NgxBuf) {
        &mut self.buf
    }
}

} // verus!
