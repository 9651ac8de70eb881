//! Double-buffered surface state.
//!
//! Requests write to the pending state of a surface; a commit makes the pending state
//! current, and the current state is what the compositor reads.
use vstd::prelude::*;

verus! {

/// State that a surface keeps twice.
pub trait Cacheable: Sized {
    /// Snapshots the pending state, which stays as it is, so that a later commit with no
    /// request in between sees the same values.
    fn commit(&mut self) -> (snapshot: Self)
        ensures
            snapshot == *old(self),
            *final(self) == *old(self),
    ;

    /// Makes a snapshot the state of `into`.
    fn merge_into(self, into: &mut Self)
        ensures
            *final(into) == self,
    ;
}

/// The two copies of a surface's state: the view of [`CachedState`].
pub struct Buffers<T> {
    /// What requests write to.
    pub pending: T,
    /// What the compositor reads.
    pub current: T,
}

/// What can happen to the state of a surface.
pub enum BufferOp<T> {
    /// A request changes the pending state to this.
    Write(T),
    /// The surface is committed.
    Commit,
}

impl<T> Buffers<T> {
    /// The copies after `op`.
    pub open spec fn after(self, op: BufferOp<T>) -> Self {
        match op {
            BufferOp::Write(state) => Buffers { pending: state, ..self },
            BufferOp::Commit => Buffers { current: self.pending, ..self },
        }
    }

    /// The copies after a series of operations.
    pub open spec fn after_all(self, ops: Seq<BufferOp<T>>) -> Self
        decreases ops.len(),
    {
        if ops.len() == 0 {
            self
        } else {
            self.after_all(ops.drop_last()).after(ops.last())
        }
    }
}

/// State of a surface, kept twice.
#[derive(Debug)]
pub struct CachedState<T> {
    pending: T,
    current: T,
}

impl<T> View for CachedState<T> {
    type V = Buffers<T>;

    closed spec fn view(&self) -> Buffers<T> {
        Buffers { pending: self.pending, current: self.current }
    }
}

impl<T: Cacheable> CachedState<T> {
    /// State with the given copies.
    pub fn new(pending: T, current: T) -> (state: Self)
        ensures
            state@ == (Buffers { pending, current }),
    {
        CachedState { pending, current }
    }

    /// The pending state, to write to.
    pub fn pending(&mut self) -> (pending: &mut T)
        ensures
            *pending == old(self)@.pending,
            final(self)@ == old(self)@.after(BufferOp::Write(*final(pending))),
    {
        &mut self.pending
    }

    /// The current state.
    pub fn current(&self) -> (current: &T)
        ensures
            *current == self@.current,
    {
        &self.current
    }

    /// Makes the pending state current.
    pub fn commit(&mut self)
        ensures
            final(self)@ == old(self)@.after(BufferOp::Commit),
    {
        let snapshot = self.pending.commit();
        snapshot.merge_into(&mut self.current);
    }
}

/// What a request writes waits for a commit: without one, the current state stays as it is.
pub proof fn lemma_writes_wait_for_commit<T>(buffers: Buffers<T>, ops: Seq<BufferOp<T>>)
    requires
        forall|i: int| 0 <= i < ops.len() ==> (#[trigger] ops[i]) is Write,
    ensures
        buffers.after_all(ops).current == buffers.current,
    decreases ops.len(),
{
    if ops.len() > 0 {
        let rest = ops.drop_last();
        assert forall|i: int| 0 <= i < rest.len() implies (#[trigger] rest[i]) is Write by {
            assert(rest[i] == ops[i]);
        }
        lemma_writes_wait_for_commit(buffers, rest);
        assert(ops[ops.len() - 1] is Write);
    }
}

/// What the compositor reads is what was last written before the last commit.
///
/// `write` is the last write before the commit at `commit`, and no commit follows that one.
pub proof fn lemma_read_gives_last_committed_write<T>(
    buffers: Buffers<T>,
    ops: Seq<BufferOp<T>>,
    write: int,
    commit: int,
)
    requires
        0 <= write < commit < ops.len(),
        ops[write] is Write,
        forall|i: int| write < i <= commit ==> (#[trigger] ops[i]) is Commit,
        forall|i: int| commit < i < ops.len() ==> (#[trigger] ops[i]) is Write,
    ensures
        ops[write] == BufferOp::Write(buffers.after_all(ops).current),
    decreases ops.len(),
{
    let rest = ops.drop_last();
    assert forall|i: int| 0 <= i < rest.len() implies #[trigger] rest[i] == ops[i] by {}
    if commit < ops.len() - 1 {
        assert(ops[ops.len() - 1] is Write);
        lemma_read_gives_last_committed_write(buffers, rest, write, commit);
    } else {
        assert(ops[commit] is Commit);
        lemma_pending_is_last_write(buffers, rest, write);
    }
}

/// The pending state is what was last written; commits do not change it.
pub proof fn lemma_pending_is_last_write<T>(
    buffers: Buffers<T>,
    ops: Seq<BufferOp<T>>,
    write: int,
)
    requires
        0 <= write < ops.len(),
        ops[write] is Write,
        forall|i: int| write < i < ops.len() ==> (#[trigger] ops[i]) is Commit,
    ensures
        ops[write] == BufferOp::Write(buffers.after_all(ops).pending),
    decreases ops.len(),
{
    let rest = ops.drop_last();
    if write < ops.len() - 1 {
        assert forall|i: int| write < i < rest.len() implies (#[trigger] rest[i]) is Commit by {
            assert(rest[i] == ops[i]);
        }
        assert(ops[ops.len() - 1] is Commit);
        lemma_pending_is_last_write(buffers, rest, write);
    }
}

} // verus!
