//! Buffers kept for reuse, in two tiers: a small cache of the thread's own, and
//! a pool that the threads share.

use crate::buffer;
use bytes::BytesMut;
use std::collections::VecDeque;
use vstd::prelude::*;

verus! {

/// How many buffers a thread keeps for itself.
pub const LOCAL_CACHE_SIZE: usize = 8;

/// How many bytes the pool itself takes for each buffer it can keep.
pub const BUFFER_HANDLE_BYTES: usize = 32;

/// Whether no buffer holds a byte.
pub open spec fn all_cleared(buffers: Seq<BytesMut>) -> bool {
    forall|i: int| 0 <= i < buffers.len() ==> buffer::held(#[trigger] buffers[i]).len() == 0
}

/// Whether `after` is `before` with the buffer `b` behind it, cleared.
pub open spec fn kept(before: Seq<BytesMut>, b: BytesMut, after: Seq<BytesMut>) -> bool {
    &&& after == before.push(buffer::cleared(b))
    &&& buffer::held(after.last()).len() == 0
    &&& buffer::asked(after.last()) == buffer::asked(b)
}

/// The buffers that a thread keeps for itself. The last one in is the first one
/// out.
pub struct LocalCache {
    buffers: Vec<BytesMut>,
}

impl View for LocalCache {
    type V = Seq<BytesMut>;

    closed spec fn view(&self) -> Seq<BytesMut> {
        self.buffers@
    }
}

impl LocalCache {
    /// At most `LOCAL_CACHE_SIZE` buffers, none of which holds a byte.
    pub open spec fn wf(&self) -> bool {
        self@.len() <= LOCAL_CACHE_SIZE && all_cleared(self@)
    }

    /// A cache without buffers.
    pub fn new() -> (r: LocalCache)
        ensures
            r@.len() == 0,
            r.wf(),
    {
        LocalCache { buffers: Vec::with_capacity(LOCAL_CACHE_SIZE) }
    }

    /// Takes the last buffer that came in, if there is one.
    pub fn take(&mut self) -> (r: Option<BytesMut>)
        requires
            old(self).wf(),
        ensures
            final(self).wf(),
            match r {
                Some(b) => {
                    &&& old(self)@.len() > 0
                    &&& b == old(self)@.last()
                    &&& buffer::held(b).len() == 0
                    &&& final(self)@ == old(self)@.drop_last()
                },
                None => old(self)@.len() == 0 && final(self)@ == old(self)@,
            },
    {
        self.buffers.pop()
    }

    /// Keeps a buffer, cleared, if there is room, and else hands it back.
    pub fn keep(&mut self, b: BytesMut) -> (r: Option<BytesMut>)
        requires
            old(self).wf(),
        ensures
            final(self).wf(),
            match r {
                None => {
                    &&& old(self)@.len() < LOCAL_CACHE_SIZE
                    &&& kept(old(self)@, b, final(self)@)
                },
                Some(back) => {
                    &&& old(self)@.len() == LOCAL_CACHE_SIZE
                    &&& back == b
                    &&& final(self)@ == old(self)@
                },
            },
    {
        if self.buffers.len() < LOCAL_CACHE_SIZE {
            let mut b = b;
            b.clear();
            self.buffers.push(b);
            return None;
        }
        Some(b)
    }
}

impl Default for LocalCache {
    fn default() -> (r: LocalCache)
        ensures
            r@.len() == 0,
            r.wf(),
    {
        LocalCache::new()
    }
}

/// The buffers that the threads share. The first one in is the first one out.
pub struct BufferPool {
    pool: VecDeque<BytesMut>,
    buffer_size: usize,
    max_pool_size: usize,
}

impl View for BufferPool {
    type V = Seq<BytesMut>;

    closed spec fn view(&self) -> Seq<BytesMut> {
        self.pool@
    }
}

impl BufferPool {
    /// The capacity that a new buffer is made with.
    pub closed spec fn buffer_size(&self) -> usize {
        self.buffer_size
    }

    /// How many buffers the pool keeps at most.
    pub closed spec fn max_pool_size(&self) -> usize {
        self.max_pool_size
    }

    /// At most `max_pool_size` buffers, none of which holds a byte.
    pub open spec fn wf(&self) -> bool {
        self@.len() <= self.max_pool_size() && all_cleared(self@)
    }

    /// A pool without buffers. Room for as many buffers as it may keep is set
    /// aside at once, so it has to be room that an allocation can have.
    pub fn new(buffer_size: usize, max_pool_size: usize) -> (r: BufferPool)
        requires
            max_pool_size * BUFFER_HANDLE_BYTES <= isize::MAX,
        ensures
            r@.len() == 0,
            r.buffer_size() == buffer_size,
            r.max_pool_size() == max_pool_size,
            r.wf(),
    {
        BufferPool { pool: VecDeque::with_capacity(max_pool_size), buffer_size, max_pool_size }
    }

    /// What taking a buffer does to the pool and the thread's cache.
    pub open spec fn took(
        buffer_size: usize,
        pool: Seq<BytesMut>,
        local: Seq<BytesMut>,
        pool_after: Seq<BytesMut>,
        local_after: Seq<BytesMut>,
        r: BytesMut,
    ) -> bool {
        &&& buffer::held(r).len() == 0
        &&& if local.len() > 0 {
            &&& r == local.last()
            &&& local_after == local.drop_last()
            &&& pool_after == pool
        } else if pool.len() > 0 {
            &&& r == pool.first()
            &&& pool_after == pool.drop_first()
            &&& local_after == local
        } else {
            &&& buffer::asked(r) == buffer_size
            &&& pool_after == pool
            &&& local_after == local
        }
    }

    /// Takes a buffer: out of the thread's cache if it has one, else out of the
    /// pool, else a new one. A new one needs a capacity that an allocation can
    /// have.
    pub fn get(&mut self, local: &mut LocalCache) -> (r: BytesMut)
        requires
            old(self).wf(),
            old(local).wf(),
            old(local)@.len() == 0 && old(self)@.len() == 0 ==> old(self).buffer_size()
                <= isize::MAX,
        ensures
            final(self).wf(),
            final(local).wf(),
            final(self).buffer_size() == old(self).buffer_size(),
            final(self).max_pool_size() == old(self).max_pool_size(),
            BufferPool::took(
                old(self).buffer_size(),
                old(self)@,
                old(local)@,
                final(self)@,
                final(local)@,
                r,
            ),
    {
        match local.take() {
            Some(b) => b,
            None => self.get_shared(),
        }
    }

    /// Takes a buffer for a thread whose cache has none: out of the pool if it
    /// has one, else a new one.
    pub fn get_shared(&mut self) -> (r: BytesMut)
        requires
            old(self).wf(),
            old(self)@.len() == 0 ==> old(self).buffer_size() <= isize::MAX,
        ensures
            final(self).wf(),
            final(self).buffer_size() == old(self).buffer_size(),
            final(self).max_pool_size() == old(self).max_pool_size(),
            buffer::held(r).len() == 0,
            if old(self)@.len() > 0 {
                r == old(self)@.first() && final(self)@ == old(self)@.drop_first()
            } else {
                buffer::asked(r) == old(self).buffer_size() && final(self)@ == old(self)@
            },
    {
        if let Some(b) = self.pool.pop_front() {
            return b;
        }
        BytesMut::with_capacity(self.buffer_size)
    }

    /// What giving a buffer back does to the pool and the thread's cache.
    pub open spec fn gave(
        max_pool_size: usize,
        pool: Seq<BytesMut>,
        local: Seq<BytesMut>,
        b: BytesMut,
        pool_after: Seq<BytesMut>,
        local_after: Seq<BytesMut>,
    ) -> bool {
        if local.len() < LOCAL_CACHE_SIZE {
            &&& kept(local, b, local_after)
            &&& pool_after == pool
        } else if pool.len() < max_pool_size {
            &&& kept(pool, b, pool_after)
            &&& local_after == local
        } else {
            &&& pool_after == pool
            &&& local_after == local
        }
    }

    /// Gives a buffer back, cleared: to the thread's cache if there is room,
    /// else to the pool if there is room, else to nobody.
    pub fn put(&mut self, local: &mut LocalCache, b: BytesMut)
        requires
            old(self).wf(),
            old(local).wf(),
        ensures
            final(self).wf(),
            final(local).wf(),
            final(self).buffer_size() == old(self).buffer_size(),
            final(self).max_pool_size() == old(self).max_pool_size(),
            BufferPool::gave(
                old(self).max_pool_size(),
                old(self)@,
                old(local)@,
                b,
                final(self)@,
                final(local)@,
            ),
    {
        if let Some(b) = local.keep(b) {
            self.put_shared(b);
        }
    }

    /// Gives a buffer back, cleared, for a thread whose cache is full: to the
    /// pool if there is room, else to nobody.
    pub fn put_shared(&mut self, b: BytesMut)
        requires
            old(self).wf(),
        ensures
            final(self).wf(),
            final(self).buffer_size() == old(self).buffer_size(),
            final(self).max_pool_size() == old(self).max_pool_size(),
            if old(self)@.len() < old(self).max_pool_size() {
                kept(old(self)@, b, final(self)@)
            } else {
                final(self)@ == old(self)@
            },
    {
        let mut b = b;
        b.clear();
        if self.pool.len() < self.max_pool_size {
            self.pool.push_back(b);
        }
    }

    /// How many buffers the pool keeps.
    pub fn pool_size(&self) -> (r: usize)
        ensures
            r == self@.len(),
    {
        self.pool.len()
    }
}

} // verus!
