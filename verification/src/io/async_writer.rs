//! The parallel writer: the pool of buffers it draws on and the chunks it
//! hands to its tasks.

use vstd::prelude::*;
use std::collections::VecDeque;
use crate::patterns::repeated;

verus! {

/// The number of buffers a writer keeps for reuse.
pub const POOL_CAPACITY: usize = 16;

/// The fewest tasks that may write at once.
pub const MIN_CONCURRENCY: usize = 4;

/// What a pool holds: the buffers that wait for reuse, oldest first, the
/// size of every buffer, and the most buffers it keeps.
pub struct PoolState {
    pub available: Seq<Seq<u8>>,
    pub buffer_size: nat,
    pub max_buffers: nat,
}

/// One call on a pool.
pub enum PoolOp {
    Acquire,
    Release(Seq<u8>),
}

impl PoolState {
    /// The pool is within its bound and every buffer in it has the size of
    /// the pool.
    pub open spec fn well_formed(self) -> bool {
        &&& self.available.len() <= self.max_buffers
        &&& forall|i: int|
            0 <= i < self.available.len() ==> (#[trigger] self.available[i]).len()
                == self.buffer_size
    }

    /// The buffer that `acquire` hands out: the oldest that waits, or a new
    /// one of zeros.
    pub open spec fn acquired(self) -> Seq<u8> {
        if self.available.len() > 0 {
            self.available[0]
        } else {
            repeated(0, self.buffer_size)
        }
    }

    /// The pool after a buffer was acquired.
    pub open spec fn after_acquire(self) -> PoolState {
        if self.available.len() > 0 {
            PoolState { available: self.available.drop_first(), ..self }
        } else {
            self
        }
    }

    /// The pool after `buffer` was released: it is kept if the pool has
    /// room and the buffer has the size of the pool, and dropped otherwise.
    pub open spec fn after_release(self, buffer: Seq<u8>) -> PoolState {
        if self.available.len() < self.max_buffers && buffer.len() == self.buffer_size {
            PoolState { available: self.available.push(buffer), ..self }
        } else {
            self
        }
    }

    pub open spec fn after_op(self, op: PoolOp) -> PoolState {
        match op {
            PoolOp::Acquire => self.after_acquire(),
            PoolOp::Release(buffer) => self.after_release(buffer),
        }
    }

    /// The pool after the calls, one after another.
    pub open spec fn after_ops(self, ops: Seq<PoolOp>) -> PoolState
        decreases ops.len(),
    {
        if ops.len() == 0 {
            self
        } else {
            self.after_op(ops[0]).after_ops(ops.drop_first())
        }
    }

    /// The pool after `count` buffers were acquired.
    pub open spec fn drained(self, count: nat) -> PoolState
        decreases count,
    {
        if count == 0 {
            self
        } else {
            self.after_acquire().drained((count - 1) as nat)
        }
    }
}

/// Whatever is acquired and released, in whatever order, the pool never
/// holds more buffers than its bound, and never one of another size.
pub proof fn lemma_pool_stays_bounded(pool: PoolState, ops: Seq<PoolOp>)
    requires
        pool.well_formed(),
    ensures
        pool.after_ops(ops).well_formed(),
        pool.after_ops(ops).available.len() <= pool.max_buffers,
        pool.after_ops(ops).max_buffers == pool.max_buffers,
        pool.after_ops(ops).buffer_size == pool.buffer_size,
    decreases ops.len(),
{
    if ops.len() > 0 {
        lemma_pool_stays_bounded(pool.after_op(ops[0]), ops.drop_first());
    }
}

/// A buffer of the right size that is released into a pool with room is
/// handed out again: once the buffers that waited before it are taken, the
/// next one acquired is that buffer.
pub proof fn lemma_released_buffer_is_reused(pool: PoolState, buffer: Seq<u8>)
    requires
        pool.available.len() < pool.max_buffers,
        buffer.len() == pool.buffer_size,
    ensures
        pool.after_release(buffer).drained(pool.available.len()).acquired() == buffer,
    decreases pool.available.len(),
{
    let released = pool.after_release(buffer);
    if pool.available.len() > 0 {
        let shorter = pool.after_acquire();
        lemma_released_buffer_is_reused(shorter, buffer);
        assert(released.after_acquire().available =~= shorter.after_release(buffer).available);
        assert(released.after_acquire() == shorter.after_release(buffer));
    }
}

/// Buffers of one size, kept for reuse up to a bound.
pub struct BufferPool {
    buffers: VecDeque<Vec<u8>>,
    buffer_size: usize,
    max_buffers: usize,
}

impl View for BufferPool {
    type V = PoolState;

    closed spec fn view(&self) -> PoolState {
        PoolState {
            available: Seq::new(self.buffers@.len(), |i: int| self.buffers@[i]@),
            buffer_size: self.buffer_size as nat,
            max_buffers: self.max_buffers as nat,
        }
    }
}

impl BufferPool {
    /// An empty pool of buffers of `buffer_size` bytes that keeps at most
    /// `max_buffers` of them.
    pub fn new(buffer_size: usize, max_buffers: usize) -> (pool: Self)
        ensures
            pool@ == (PoolState {
                available: Seq::empty(),
                buffer_size: buffer_size as nat,
                max_buffers: max_buffers as nat,
            }),
            pool@.well_formed(),
    {
        let pool = BufferPool { buffers: VecDeque::new(), buffer_size, max_buffers };
        assert(pool@.available =~= Seq::empty());
        pool
    }

    /// Hands out a buffer of the pool's size: the oldest that waits for
    /// reuse, or a new one of zeros when none waits.
    pub fn get_buffer(&mut self) -> (buffer: Vec<u8>)
        ensures
            buffer@ == old(self)@.acquired(),
            final(self)@ == old(self)@.after_acquire(),
            old(self)@.well_formed() ==> buffer@.len() == old(self)@.buffer_size,
            old(self)@.well_formed() ==> final(self)@.well_formed(),
    {
        let ghost before = self@;
        match self.buffers.pop_front() {
            Some(buffer) => {
                assert(buffer@ == before.available[0]);
                assert(self@.available =~= before.available.drop_first());
                buffer
            },
            None => {
                assert(self@.available =~= before.available);
                let buffer = vec![0u8; self.buffer_size];
                assert(buffer@ =~= repeated(0, self.buffer_size as nat));
                buffer
            },
        }
    }

    /// Takes a buffer back. It is kept for reuse if the pool has room and
    /// the buffer has the pool's size; otherwise it is dropped.
    pub fn return_buffer(&mut self, buffer: Vec<u8>)
        ensures
            final(self)@ == old(self)@.after_release(buffer@),
            old(self)@.well_formed() ==> final(self)@.well_formed(),
    {
        let ghost before = self@;
        if self.buffers.len() < self.max_buffers && buffer.len() == self.buffer_size {
            self.buffers.push_back(buffer);
            assert(self@.available =~= before.available.push(buffer@));
        }
    }

    /// The number of buffers that wait for reuse.
    pub fn available(&self) -> (count: usize)
        ensures
            count == self@.available.len(),
    {
        self.buffers.len()
    }
}

/// A piece of a file that one task overwrites.
#[derive(Debug, Clone, Copy, PartialEq, Eq, Structural)]
pub struct Chunk {
    /// Where the piece begins in the file.
    pub start_offset: u64,
    /// The number of bytes in it.
    pub size: usize,
}

/// The number of pieces of at most `chunk_size` bytes that a file of
/// `file_size` bytes falls into.
pub open spec fn chunk_count(file_size: nat, chunk_size: nat) -> nat {
    if file_size % chunk_size == 0 {
        file_size / chunk_size
    } else {
        file_size / chunk_size + 1
    }
}

/// Where piece `index` begins.
pub open spec fn chunk_start(chunk_size: nat, index: nat) -> nat {
    index * chunk_size
}

/// The number of bytes in piece `index`: a full chunk, or what is left of
/// the file behind its start.
pub open spec fn chunk_len(file_size: nat, chunk_size: nat, index: nat) -> nat {
    if file_size - index * chunk_size < chunk_size {
        (file_size - index * chunk_size) as nat
    } else {
        chunk_size
    }
}

/// Whether the byte at `position` lies in piece `index`.
pub open spec fn chunk_holds(file_size: nat, chunk_size: nat, index: nat, position: int) -> bool {
    chunk_start(chunk_size, index) <= position < chunk_start(chunk_size, index) + chunk_len(
        file_size,
        chunk_size,
        index,
    )
}

/// Whether `chunks` are the pieces of a file of `file_size` bytes, in order.
pub open spec fn is_chunk_plan(chunks: Seq<Chunk>, file_size: nat, chunk_size: nat) -> bool {
    &&& chunks.len() == chunk_count(file_size, chunk_size)
    &&& forall|i: int|
        0 <= i < chunks.len() ==> {
            &&& (#[trigger] chunks[i]).start_offset == chunk_start(chunk_size, i as nat)
            &&& chunks[i].size == chunk_len(file_size, chunk_size, i as nat)
        }
}

pub(crate) proof fn lemma_chunk_bounds(file_size: nat, chunk_size: nat, index: nat)
    by (nonlinear_arith)
    requires
        chunk_size > 0,
        index < chunk_count(file_size, chunk_size),
    ensures
        index * chunk_size < file_size,
        index + 1 < chunk_count(file_size, chunk_size) ==> (index + 1) * chunk_size < file_size,
        index + 1 == chunk_count(file_size, chunk_size) ==> file_size - index * chunk_size
            <= chunk_size,
        (index + 1) * chunk_size == index * chunk_size + chunk_size,
{
}

proof fn lemma_chunk_of_position(file_size: nat, chunk_size: nat, position: nat)
    by (nonlinear_arith)
    requires
        chunk_size > 0,
        position < file_size,
    ensures
        position / chunk_size < chunk_count(file_size, chunk_size),
        (position / chunk_size) * chunk_size <= position,
        position < (position / chunk_size) * chunk_size + chunk_size,
{
}

proof fn lemma_chunk_is_unique(chunk_size: nat, position: nat, index: nat)
    by (nonlinear_arith)
    requires
        chunk_size > 0,
        index * chunk_size <= position < index * chunk_size + chunk_size,
    ensures
        index == position / chunk_size,
{
}

/// The pieces lie end to end from the first byte of the file to its last:
/// the first begins at offset 0, each begins where the one before it ends,
/// none is empty or longer than a chunk, and the last ends with the file.
/// An empty file has no piece.
pub proof fn lemma_chunks_tile_file(file_size: nat, chunk_size: nat)
    requires
        chunk_size > 0,
    ensures
        chunk_count(file_size, chunk_size) == 0 <==> file_size == 0,
        chunk_start(chunk_size, 0) == 0,
        forall|i: nat|
            i < chunk_count(file_size, chunk_size) ==> 0 < #[trigger] chunk_len(
                file_size,
                chunk_size,
                i,
            ) <= chunk_size,
        forall|i: nat|
            i + 1 < chunk_count(file_size, chunk_size) ==> #[trigger] chunk_start(chunk_size, i + 1)
                == chunk_start(chunk_size, i) + chunk_len(file_size, chunk_size, i),
        forall|i: nat|
            i + 1 == chunk_count(file_size, chunk_size) ==> #[trigger] chunk_start(chunk_size, i)
                + chunk_len(file_size, chunk_size, i) == file_size,
{
    assert(chunk_count(file_size, chunk_size) == 0 <==> file_size == 0) by (nonlinear_arith)
        requires
            chunk_size > 0,
    ;
    assert(chunk_start(chunk_size, 0) == 0) by (nonlinear_arith);
    assert forall|i: nat| i < chunk_count(file_size, chunk_size) implies 0 < #[trigger] chunk_len(
        file_size,
        chunk_size,
        i,
    ) <= chunk_size by {
        lemma_chunk_bounds(file_size, chunk_size, i);
    }
    assert forall|i: nat| i + 1 < chunk_count(file_size, chunk_size) implies #[trigger] chunk_start(
        chunk_size,
        i + 1,
    ) == chunk_start(chunk_size, i) + chunk_len(file_size, chunk_size, i) by {
        lemma_chunk_bounds(file_size, chunk_size, i);
    }
    assert forall|i: nat|
        i + 1 == chunk_count(file_size, chunk_size) implies #[trigger] chunk_start(chunk_size, i)
        + chunk_len(file_size, chunk_size, i) == file_size by {
        lemma_chunk_bounds(file_size, chunk_size, i);
    }
}

/// Every byte of the file lies in exactly one piece.
pub proof fn lemma_chunks_partition_file(file_size: nat, chunk_size: nat, position: nat)
    requires
        chunk_size > 0,
        position < file_size,
    ensures
        position / chunk_size < chunk_count(file_size, chunk_size),
        chunk_holds(file_size, chunk_size, position / chunk_size, position as int),
        forall|other: nat|
            other < chunk_count(file_size, chunk_size) && #[trigger] chunk_holds(
                file_size,
                chunk_size,
                other,
                position as int,
            ) ==> other == position / chunk_size,
{
    lemma_chunk_of_position(file_size, chunk_size, position);
    lemma_chunk_bounds(file_size, chunk_size, position / chunk_size);
    assert forall|other: nat|
        other < chunk_count(file_size, chunk_size) && #[trigger] chunk_holds(
            file_size,
            chunk_size,
            other,
            position as int,
        ) implies other == position / chunk_size by {
        lemma_chunk_bounds(file_size, chunk_size, other);
        lemma_chunk_is_unique(chunk_size, position, other);
    }
}

/// The content of a file after `data` was written at `offset`. The write
/// does not extend the file.
pub open spec fn write_at(file: Seq<u8>, offset: int, data: Seq<u8>) -> Seq<u8> {
    Seq::new(
        file.len(),
        |i: int|
            if offset <= i < offset + data.len() {
                data[i - offset]
            } else {
                file[i]
            },
    )
}

/// The content of a file after the pieces named by `order` were each
/// overwritten with `byte`, one after another.
pub open spec fn write_chunks(
    file: Seq<u8>,
    chunk_size: nat,
    order: Seq<nat>,
    byte: u8,
) -> Seq<u8>
    decreases order.len(),
{
    if order.len() == 0 {
        file
    } else {
        write_chunks(
            write_at(
                file,
                chunk_start(chunk_size, order[0]) as int,
                repeated(byte, chunk_len(file.len(), chunk_size, order[0])),
            ),
            chunk_size,
            order.drop_first(),
            byte,
        )
    }
}

proof fn lemma_write_chunks_keeps(file: Seq<u8>, chunk_size: nat, order: Seq<nat>, byte: u8)
    requires
        chunk_size > 0,
        forall|k: int| 0 <= k < order.len() ==> order[k] < chunk_count(file.len(), chunk_size),
    ensures
        write_chunks(file, chunk_size, order, byte).len() == file.len(),
        forall|p: int|
            0 <= p < file.len() && file[p] == byte ==> write_chunks(
                file,
                chunk_size,
                order,
                byte,
            )[p] == byte,
        forall|k: int, p: int|
            0 <= k < order.len() && #[trigger] chunk_holds(file.len(), chunk_size, order[k], p)
                ==> 0 <= p < file.len() && write_chunks(file, chunk_size, order, byte)[p] == byte,
    decreases order.len(),
{
    if order.len() > 0 {
        let first = order[0];
        let start = chunk_start(chunk_size, first) as int;
        let length = chunk_len(file.len(), chunk_size, first);
        let written = write_at(file, start, repeated(byte, length));
        let rest = order.drop_first();
        lemma_chunk_bounds(file.len(), chunk_size, first);
        assert forall|k: int| 0 <= k < rest.len() implies rest[k] < chunk_count(
            written.len(),
            chunk_size,
        ) by {
            assert(rest[k] == order[k + 1]);
        }
        lemma_write_chunks_keeps(written, chunk_size, rest, byte);
        let result = write_chunks(file, chunk_size, order, byte);
        assert(result == write_chunks(written, chunk_size, rest, byte));
        assert forall|p: int| 0 <= p < file.len() && file[p] == byte implies result[p] == byte by {
            assert(written[p] == byte);
        }
        assert forall|k: int, p: int|
            0 <= k < order.len() && #[trigger] chunk_holds(
                file.len(),
                chunk_size,
                order[k],
                p,
            ) implies 0 <= p < file.len() && result[p] == byte by {
            lemma_chunk_bounds(file.len(), chunk_size, order[k]);
            if k == 0 {
                assert(written[p] == byte);
            } else {
                assert(rest[k - 1] == order[k]);
                assert(chunk_holds(written.len(), chunk_size, rest[k - 1], p));
            }
        }
    }
}

/// A pass of a pattern with a fill byte, written piece by piece, leaves
/// every byte of the file equal to that byte. It does not matter in which
/// order the pieces are written, or whether one is written more than once,
/// as long as each is written at least once: no byte is skipped and no
/// write disturbs another.
pub proof fn lemma_pass_fills_file(file: Seq<u8>, chunk_size: nat, order: Seq<nat>, byte: u8)
    requires
        chunk_size > 0,
        forall|k: int| 0 <= k < order.len() ==> order[k] < chunk_count(file.len(), chunk_size),
        forall|i: nat| i < chunk_count(file.len(), chunk_size) ==> #[trigger] order.contains(i),
    ensures
        write_chunks(file, chunk_size, order, byte) == repeated(byte, file.len()),
{
    lemma_write_chunks_keeps(file, chunk_size, order, byte);
    let result = write_chunks(file, chunk_size, order, byte);
    assert forall|p: int| 0 <= p < file.len() implies result[p] == byte by {
        let index = (p as nat) / chunk_size;
        lemma_chunks_partition_file(file.len(), chunk_size, p as nat);
        assert(order.contains(index));
        let k = choose|k: int| 0 <= k < order.len() && order[k] == index;
        assert(chunk_holds(file.len(), chunk_size, order[k], p));
    }
    assert(result =~= repeated(byte, file.len()));
}

/// The pieces of a file in the order of their offsets.
pub open spec fn in_file_order(file_size: nat, chunk_size: nat) -> Seq<nat> {
    Seq::new(chunk_count(file_size, chunk_size), |i: int| i as nat)
}

/// A pass that writes the pieces one after another from the start of the
/// file, as the streamed writer does, leaves the file filled with the byte
/// of its pattern.
pub proof fn lemma_streamed_pass_fills_file(file: Seq<u8>, block_size: nat, byte: u8)
    requires
        block_size > 0,
    ensures
        write_chunks(file, block_size, in_file_order(file.len(), block_size), byte) == repeated(
            byte,
            file.len(),
        ),
{
    let order = in_file_order(file.len(), block_size);
    assert forall|i: nat| i < chunk_count(file.len(), block_size) implies #[trigger] order.contains(
        i,
    ) by {
        assert(order[i as int] == i);
    }
    lemma_pass_fills_file(file, block_size, order, byte);
}

/// Calls `num_cpus::get`: the number of logical cores that the process may
/// use. It depends on the machine, and nothing is claimed of it.
#[verifier::external_body]
fn available_cpus() -> (cpus: usize) {
    num_cpus::get()
}

/// What a task is to write: the bytes in `buffer` up to `size`, at
/// `start_offset`. The buffer goes back to the pool afterwards.
pub struct ChunkWrite {
    pub start_offset: u64,
    pub size: usize,
    pub buffer: Vec<u8>,
}

/// The writer of the parallel path.
pub struct AsyncWiper {
    buffer_pool: BufferPool,
    concurrency_limit: usize,
}

impl AsyncWiper {
    /// The pool that the writer draws its buffers from.
    pub closed spec fn pool(&self) -> PoolState {
        self.buffer_pool@
    }

    /// The most tasks that write at once.
    pub closed spec fn task_limit(&self) -> usize {
        self.concurrency_limit
    }

    /// A writer for a machine with `cpus` cores: it lets as many tasks
    /// write at once as there are cores, and at least four.
    pub fn with_cpus(buffer_size: usize, cpus: usize) -> (wiper: Self)
        ensures
            wiper.task_limit() == if cpus > MIN_CONCURRENCY {
                cpus
            } else {
                MIN_CONCURRENCY
            },
            wiper.pool() == (PoolState {
                available: Seq::empty(),
                buffer_size: buffer_size as nat,
                max_buffers: POOL_CAPACITY as nat,
            }),
    {
        let concurrency_limit = if cpus > MIN_CONCURRENCY {
            cpus
        } else {
            MIN_CONCURRENCY
        };
        AsyncWiper { buffer_pool: BufferPool::new(buffer_size, POOL_CAPACITY), concurrency_limit }
    }

    /// A writer for this machine, with an empty pool of buffers of
    /// `buffer_size` bytes.
    pub fn new(buffer_size: usize) -> (wiper: Self)
        ensures
            wiper.task_limit() >= MIN_CONCURRENCY,
            wiper.pool() == (PoolState {
                available: Seq::empty(),
                buffer_size: buffer_size as nat,
                max_buffers: POOL_CAPACITY as nat,
            }),
    {
        Self::with_cpus(buffer_size, available_cpus())
    }

    /// The number of permits of the semaphore that gates the tasks.
    pub fn concurrency_limit(&self) -> (limit: usize)
        ensures
            limit == self.task_limit(),
    {
        self.concurrency_limit
    }

    /// Splits the byte range of a file into the pieces that the tasks
    /// overwrite: chunks of `chunk_size` bytes, the last one shorter where
    /// the size of the file is no multiple of it.
    pub fn parallel_wipe(&self, file_size: u64, chunk_size: usize) -> (chunks: Vec<Chunk>)
        requires
            chunk_size > 0,
            chunk_count(file_size as nat, chunk_size as nat) <= usize::MAX,
        ensures
            is_chunk_plan(chunks@, file_size as nat, chunk_size as nat),
    {
        let ghost count = chunk_count(file_size as nat, chunk_size as nat);
        let mut chunks: Vec<Chunk> = Vec::new();
        let mut offset: u64 = 0;
        proof {
            lemma_chunks_tile_file(file_size as nat, chunk_size as nat);
        }
        while offset < file_size
            invariant
                chunk_size > 0,
                count == chunk_count(file_size as nat, chunk_size as nat),
                count <= usize::MAX,
                chunks@.len() <= count,
                chunks@.len() < count ==> offset == chunks@.len() * chunk_size,
                chunks@.len() == count ==> offset == file_size,
                forall|i: int|
                    0 <= i < chunks@.len() ==> {
                        &&& (#[trigger] chunks@[i]).start_offset == chunk_start(
                            chunk_size as nat,
                            i as nat,
                        )
                        &&& chunks@[i].size == chunk_len(
                            file_size as nat,
                            chunk_size as nat,
                            i as nat,
                        )
                    },
            decreases file_size - offset,
        {
            let ghost index = chunks@.len();
            proof {
                lemma_chunk_bounds(file_size as nat, chunk_size as nat, index);
            }
            let remaining = file_size - offset;
            let size = if remaining < chunk_size as u64 {
                remaining as usize
            } else {
                chunk_size
            };
            chunks.push(Chunk { start_offset: offset, size });
            offset = offset + size as u64;
        }
        proof {
            if chunks@.len() < count {
                lemma_chunk_bounds(file_size as nat, chunk_size as nat, chunks@.len());
            }
        }
        chunks
    }

    /// Prepares the write of one piece: takes a buffer from the pool and
    /// fills its first `chunk_size` bytes with the pattern. Where the pool's
    /// buffers are too short for the piece, a buffer of the piece's size is
    /// made instead, so that the whole piece is written.
    pub fn wipe_chunk(
        &mut self,
        pattern: &mut crate::patterns::WipePattern,
        start_offset: u64,
        chunk_size: usize,
    ) -> (write: ChunkWrite)
        ensures
            write.start_offset == start_offset,
            write.size == chunk_size,
            write.buffer@.len() >= chunk_size,
            final(pattern).kind() == old(pattern).kind(),
            old(pattern).kind().fill_byte() matches Some(byte) ==> write.buffer@.subrange(
                0,
                chunk_size as int,
            ) == repeated(byte, chunk_size as nat),
            final(self).task_limit() == old(self).task_limit(),
            final(self).pool() == old(self).pool().after_acquire(),
    {
        let pooled = self.buffer_pool.get_buffer();
        let mut buffer = if pooled.len() < chunk_size {
            vec![0u8; chunk_size]
        } else {
            pooled
        };
        let (head, _tail) = buffer.as_mut_slice().split_at_mut(chunk_size);
        pattern.generate(head);
        ChunkWrite { start_offset, size: chunk_size, buffer }
    }

    /// Gives the buffer of a finished write back to the pool.
    pub fn finish_chunk(&mut self, write: ChunkWrite)
        ensures
            final(self).task_limit() == old(self).task_limit(),
            final(self).pool() == old(self).pool().after_release(write.buffer@),
    {
        self.buffer_pool.return_buffer(write.buffer);
    }
}

} // verus!
