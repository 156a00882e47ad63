//! Buffers: which one is taken, and where one goes that is given back.

use crate::buffer;
use crate::pool::{BufferPool, LocalCache};
use bytes::BytesMut;
use vstd::prelude::*;

verus! {

/// A buffer that is taken is empty. It is the last that came to the thread's own cache.
/// Where the cache has none it is the first that came to the pool, and where the pool has
/// none it is made with the pool's size. Nothing else is taken.
pub proof fn law_buffers_are_taken_nearest_first(
    pool: &mut BufferPool,
    local: &mut LocalCache,
    r: BytesMut,
)
    requires
        call_ensures(BufferPool::get, (pool, local), r),
    ensures
        buffer::held(r).len() == 0,
        old(local)@.len() > 0 ==> {
            &&& old(local)@ == final(local)@.push(r)
            &&& final(pool)@ == old(pool)@
        },
        old(local)@.len() == 0 && old(pool)@.len() > 0 ==> {
            &&& old(pool)@ == seq![r] + final(pool)@
            &&& final(local)@.len() == 0
        },
        old(local)@.len() == 0 && old(pool)@.len() == 0 ==> {
            &&& buffer::asked(r) == old(pool).buffer_size()
            &&& final(local)@.len() == 0
            &&& final(pool)@.len() == 0
        },
        final(pool).buffer_size() == old(pool).buffer_size(),
        final(pool).max_pool_size() == old(pool).max_pool_size(),
{
    if old(local)@.len() > 0 {
        assert(old(local)@ =~= final(local)@.push(r));
    } else if old(pool)@.len() > 0 {
        assert(old(pool)@ =~= seq![r] + final(pool)@);
    }
}

/// A buffer that is given back is kept, without its bytes: by the thread's cache while it
/// keeps less than eight, else by the pool while it keeps less than it may, else by
/// nobody. Nothing that was kept before is lost.
pub proof fn law_buffers_are_kept_nearest_first(
    pool: &mut BufferPool,
    local: &mut LocalCache,
    b: BytesMut,
)
    requires
        call_ensures(BufferPool::put, (pool, local, b), ()),
        old(local)@.len() <= 8,
    ensures
        ({
            let to_local = old(local)@.len() < 8;
            let to_pool = !to_local && old(pool)@.len() < old(pool).max_pool_size();
            &&& final(local)@ == if to_local {
                old(local)@.push(buffer::cleared(b))
            } else {
                old(local)@
            }
            &&& final(pool)@ == if to_pool {
                old(pool)@.push(buffer::cleared(b))
            } else {
                old(pool)@
            }
            &&& to_local ==> buffer::held(final(local)@.last()).len() == 0
            &&& to_pool ==> buffer::held(final(pool)@.last()).len() == 0
        }),
        final(pool).buffer_size() == old(pool).buffer_size(),
        final(pool).max_pool_size() == old(pool).max_pool_size(),
{
}

/// What a thread's cache keeps comes back last in, first out, up to eight buffers. A
/// ninth is handed back as it is.
pub proof fn law_caches_keep_eight(
    local: &mut LocalCache,
    b: BytesMut,
    back: Option<BytesMut>,
    again: &mut LocalCache,
    taken: Option<BytesMut>,
)
    requires
        call_ensures(LocalCache::keep, (local, b), back),
        *old(again) == *final(local),
        call_ensures(LocalCache::take, (again,), taken),
    ensures
        old(local)@.len() < 8 ==> {
            &&& back is None
            &&& taken == Some(buffer::cleared(b))
            &&& final(again)@ == old(local)@
        },
        old(local)@.len() == 8 ==> {
            &&& back == Some(b)
            &&& taken == Some(old(local)@.last())
            &&& final(again)@ == old(local)@.take(7)
        },
{
    if old(local)@.len() < 8 {
        assert(final(local)@.drop_last() =~= old(local)@);
    } else if old(local)@.len() == 8 {
        assert(old(local)@.drop_last() =~= old(local)@.take(7));
    }
}

/// The pool hands out first what came first, and a new buffer where it has none. It keeps
/// what it is given while it may, behind all that it keeps.
pub proof fn law_pools_keep_their_order(
    pool: &mut BufferPool,
    r: BytesMut,
    given: &mut BufferPool,
    b: BytesMut,
    size: usize,
)
    requires
        call_ensures(BufferPool::get_shared, (pool,), r),
        call_ensures(BufferPool::put_shared, (given, b), ()),
        call_ensures(BufferPool::pool_size, (final(given),), size),
    ensures
        buffer::held(r).len() == 0,
        if old(pool)@.len() > 0 {
            old(pool)@ == seq![r] + final(pool)@
        } else {
            final(pool)@.len() == 0 && buffer::asked(r) == old(pool).buffer_size()
        },
        final(given)@ == if old(given)@.len() < old(given).max_pool_size() {
            old(given)@.push(buffer::cleared(b))
        } else {
            old(given)@
        },
        size == final(given)@.len(),
{
    if old(pool)@.len() > 0 {
        assert(old(pool)@ =~= seq![r] + final(pool)@);
    }
}

/// A pool begins without buffers, and so does a cache.
pub proof fn law_pools_begin_empty(
    buffer_size: usize,
    max_pool_size: usize,
    pool: BufferPool,
    local: LocalCache,
    size: usize,
)
    requires
        call_ensures(BufferPool::new, (buffer_size, max_pool_size), pool),
        call_ensures(LocalCache::new, (), local),
        call_ensures(BufferPool::pool_size, (&pool,), size),
    ensures
        pool@.len() == 0,
        size == 0,
        pool.buffer_size() == buffer_size,
        pool.max_pool_size() == max_pool_size,
        local@.len() == 0,
{
}

} // verus!
