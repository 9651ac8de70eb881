//! The slot that a protocol object takes on a surface.
//!
//! At most one object of an interface may be attached to a surface at a time. A slot is
//! free at first, attaching takes it, and detaching frees it again.
use vstd::prelude::*;

verus! {

/// What can happen to a slot.
pub enum SlotOp {
    /// An object asks for the slot.
    Attach,
    /// The slot is freed.
    Detach,
}

/// Whether the slot is taken after `op`.
pub open spec fn slot_after(op: SlotOp) -> bool {
    op is Attach
}

/// Whether a slot that was free at first is taken after the operations `ops`.
pub open spec fn taken_after(ops: Seq<SlotOp>) -> bool {
    ops.len() > 0 && slot_after(ops.last())
}

/// Whether operation `i` of `ops` is an attach that gets the slot.
pub open spec fn gets_slot(ops: Seq<SlotOp>, i: int) -> bool {
    ops[i] is Attach && !taken_after(ops.take(i))
}

/// Attaching is one-shot until detach: between two attaches that get the slot there is a
/// detach.
pub proof fn lemma_attach_is_exclusive(ops: Seq<SlotOp>, i: int, j: int)
    requires
        0 <= i < j < ops.len(),
        gets_slot(ops, i),
        gets_slot(ops, j),
    ensures
        exists|k: int| i < k < j && #[trigger] ops[k] is Detach,
{
    assert(ops.take(j).last() == ops[j - 1]);
    assert(ops[j - 1] is Detach);
}

/// An attach right after a detach, or as the first operation, gets the slot; one right
/// after another attach does not.
pub proof fn lemma_attach_after_detach(ops: Seq<SlotOp>, i: int)
    requires
        0 <= i < ops.len(),
        ops[i] is Attach,
    ensures
        gets_slot(ops, i) <==> i == 0 || ops[i - 1] is Detach,
{
    if i > 0 {
        assert(ops.take(i).last() == ops[i - 1]);
    }
}

/// Attaching takes the slot and detaching frees it.
pub proof fn lemma_slot_follows_operation(op: SlotOp)
    ensures
        op is Attach ==> slot_after(op),
        op is Detach ==> !slot_after(op),
{
}

} // verus!
