//! The snapshot history: one baseline image plus a linear undo stack of
//! encoded snapshots.  The "current" image is the tail snapshot when the
//! stack is non-empty, and the baseline otherwise.

use vstd::assert_seqs_equal;
use vstd::prelude::*;

verus! {

/// One committed, immutable result of a transformation: the encoded image
/// bytes and a human-readable description of the operation that produced it.
pub struct ImageSnapshot {
    pub bytes: Vec<u8>,
    pub description: String,
}

/// The mathematical value of a snapshot: its description and its bytes.
pub open spec fn snap_view(s: ImageSnapshot) -> (Seq<char>, Seq<u8>) {
    (s.description@, s.bytes@)
}

/// The current image of a baseline plus a snapshot stack: the tail
/// snapshot's bytes when the stack is non-empty, the baseline otherwise.
pub open spec fn current_of(baseline: Seq<u8>, stack: Seq<(Seq<char>, Seq<u8>)>) -> Seq<u8> {
    if stack.len() > 0 {
        stack.last().1
    } else {
        baseline
    }
}

/// The baseline image plus the ordered stack of snapshots.  Snapshots are
/// appended at the tail and only ever removed from the tail, so the history
/// is a single linear undo chain.
pub struct History {
    baseline: Vec<u8>,
    snapshots: Vec<ImageSnapshot>,
}

impl History {
    /// The bytes of the originally loaded image.
    pub closed spec fn baseline_spec(&self) -> Seq<u8> {
        self.baseline@
    }

    /// The snapshot stack, oldest first, as (description, bytes) pairs.
    pub closed spec fn stack_spec(&self) -> Seq<(Seq<char>, Seq<u8>)> {
        self.snapshots@.map_values(|s: ImageSnapshot| snap_view(s))
    }

    /// How many snapshots the stack holds.
    pub open spec fn depth_spec(&self) -> nat {
        self.stack_spec().len()
    }

    /// The bytes that `get_latest_image` returns.
    pub open spec fn current_spec(&self) -> Seq<u8> {
        current_of(self.baseline_spec(), self.stack_spec())
    }

    /// A history with an empty baseline and no snapshots: the state before
    /// the first image is loaded.
    pub fn new() -> (h: History)
        ensures
            h.baseline_spec() == Seq::<u8>::empty(),
            h.depth_spec() == 0,
    {
        let h = History { baseline: Vec::new(), snapshots: Vec::new() };
        proof {
            assert_seqs_equal!(h.stack_spec(), Seq::<(Seq<char>, Seq<u8>)>::empty());
        }
        h
    }

    /// Stores `bytes` as the new baseline and clears the snapshot stack, so
    /// the stack never holds snapshots derived from a discarded baseline.
    pub fn set_original_image(&mut self, bytes: Vec<u8>)
        ensures
            final(self).baseline_spec() == bytes@,
            final(self).depth_spec() == 0,
            final(self).current_spec() == bytes@,
    {
        self.snapshots.clear();
        self.baseline = bytes;
        proof {
            assert_seqs_equal!(self.stack_spec(), Seq::<(Seq<char>, Seq<u8>)>::empty());
        }
    }

    /// Borrows the current image: the tail snapshot's bytes when the stack
    /// is non-empty, the baseline otherwise.
    pub fn get_latest_image(&self) -> (r: &Vec<u8>)
        ensures
            r@ == self.current_spec(),
    {
        if self.snapshots.len() > 0 {
            let s = &self.snapshots[self.snapshots.len() - 1];
            proof {
                assert(self.stack_spec().last() == snap_view(self.snapshots@.last()));
            }
            &s.bytes
        } else {
            &self.baseline
        }
    }

    /// Appends a new snapshot at the tail.  Always succeeds; the baseline
    /// and every older snapshot are untouched.
    pub fn push_snapshot(&mut self, description: String, bytes: Vec<u8>)
        ensures
            final(self).baseline_spec() == old(self).baseline_spec(),
            final(self).stack_spec() == old(self).stack_spec().push((description@, bytes@)),
            final(self).current_spec() == bytes@,
    {
        let ghost old_stack = self.stack_spec();
        self.snapshots.push(ImageSnapshot { bytes, description });
        proof {
            assert_seqs_equal!(self.stack_spec(), old_stack.push((description@, bytes@)));
        }
    }

    /// Removes and returns the tail snapshot; returns `None` and changes
    /// nothing when the stack is empty (the baseline is never popped).
    /// Removal is strictly LIFO: only the most recently added snapshot goes.
    pub fn pop_snapshot(&mut self) -> (r: Option<ImageSnapshot>)
        ensures
            final(self).baseline_spec() == old(self).baseline_spec(),
            old(self).depth_spec() == 0 ==> r is None
                && final(self).stack_spec() == old(self).stack_spec()
                && final(self).current_spec() == old(self).baseline_spec(),
            old(self).depth_spec() > 0 ==> r is Some
                && snap_view(r->Some_0) == old(self).stack_spec().last()
                && final(self).stack_spec() == old(self).stack_spec().drop_last(),
    {
        let ghost old_stack = self.stack_spec();
        let r = self.snapshots.pop();
        proof {
            if old_stack.len() > 0 {
                assert_seqs_equal!(self.stack_spec(), old_stack.drop_last());
            } else {
                assert_seqs_equal!(self.stack_spec(), old_stack);
            }
        }
        r
    }

    /// How many snapshots the stack currently holds.
    pub fn snapshot_count(&self) -> (n: usize)
        ensures
            n == self.depth_spec(),
    {
        self.snapshots.len()
    }

    /// The description of the tail snapshot, when the stack is non-empty.
    pub fn latest_description(&self) -> (r: Option<&String>)
        ensures
            self.depth_spec() == 0 ==> r is None,
            self.depth_spec() > 0 ==> r is Some && r->Some_0@ == self.stack_spec().last().0,
    {
        if self.snapshots.len() > 0 {
            let s = &self.snapshots[self.snapshots.len() - 1];
            proof {
                assert(self.stack_spec().last() == snap_view(self.snapshots@.last()));
            }
            Some(&s.description)
        } else {
            None
        }
    }
}

/// Law: appending a snapshot makes its bytes the current image, and
/// removing the tail again restores both the stack and the previous
/// current image, whatever the stack held before.
pub proof fn lemma_push_then_pop_restores(
    baseline: Seq<u8>,
    stack: Seq<(Seq<char>, Seq<u8>)>,
    snap: (Seq<char>, Seq<u8>),
)
    ensures
        current_of(baseline, stack.push(snap)) == snap.1,
        stack.push(snap).drop_last() == stack,
        current_of(baseline, stack.push(snap).drop_last()) == current_of(baseline, stack),
{
    assert_seqs_equal!(stack.push(snap).drop_last(), stack);
}

} // verus!
