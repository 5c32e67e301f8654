//! The history manager: undo/redo stacks of full element-collection
//! snapshots, with linear-undo semantics (a fresh checkpoint discards the
//! redo branch).
//!
//! The three transitions are specified on a mathematical model shared by
//! every state type that carries history stacks, and the inverse and
//! invalidation laws are proved once over that model.

use vstd::prelude::*;

verus! {

/// The mathematical model of a history-carrying store: the live collection
/// and the two stacks of snapshots, most recent snapshot last.
#[verifier::ext_equal]
pub struct HistoryModel<T> {
    pub current: Seq<T>,
    pub undo: Seq<Seq<T>>,
    pub redo: Seq<Seq<T>>,
}

impl<T> HistoryModel<T> {
    /// A checkpoint pushes the live collection onto the undo stack and
    /// discards the whole redo stack.
    pub open spec fn checkpoint_step(self) -> HistoryModel<T> {
        HistoryModel { current: self.current, undo: self.undo.push(self.current), redo: Seq::empty() }
    }

    /// Undo restores the most recent snapshot and parks the live collection
    /// on the redo stack; with no snapshot it changes nothing.
    pub open spec fn undo_step(self) -> HistoryModel<T> {
        if self.undo.len() == 0 {
            self
        } else {
            HistoryModel {
                current: self.undo.last(),
                undo: self.undo.drop_last(),
                redo: self.redo.push(self.current),
            }
        }
    }

    /// Redo is symmetric to undo.
    pub open spec fn redo_step(self) -> HistoryModel<T> {
        if self.redo.len() == 0 {
            self
        } else {
            HistoryModel {
                current: self.redo.last(),
                undo: self.undo.push(self.current),
                redo: self.redo.drop_last(),
            }
        }
    }
}

/// Undo/redo inverse law: whenever at least one snapshot can be undone,
/// undoing and then immediately redoing restores the whole history state —
/// in particular the exact pre-undo collection.
pub proof fn lemma_undo_redo_inverse<T>(m: HistoryModel<T>)
    requires
        m.undo.len() > 0,
    ensures
        m.undo_step().redo_step() == m,
        m.undo_step().redo_step().current == m.current,
{
    let u = m.undo_step();
    assert(u.redo.len() > 0);
    assert(u.redo_step().current == m.current);
    assert(u.redo_step().undo =~= m.undo);
    assert(u.redo_step().redo =~= m.redo);
    assert(u.redo_step() =~= m);
}

/// Redo invalidation: a fresh checkpoint always leaves the redo stack empty,
/// whatever undo history and redo branch preceded it.
pub proof fn lemma_checkpoint_clears_redo<T>(m: HistoryModel<T>)
    ensures
        m.checkpoint_step().redo.len() == 0,
        m.checkpoint_step().undo.len() == m.undo.len() + 1,
        m.checkpoint_step().current == m.current,
{
}

/// The model of a stack of snapshots held as a vector of vectors.
pub open spec fn stack_model<T>(s: Vec<Vec<T>>) -> Seq<Seq<T>> {
    Seq::new(s@.len(), |i: int| s@[i]@)
}

/// Copy a collection element by element, yielding a snapshot with the very
/// same contents.
pub fn snapshot<T: Copy>(v: &Vec<T>) -> (r: Vec<T>)
    ensures
        r@ == v@,
{
    let mut r: Vec<T> = Vec::new();
    let mut i: usize = 0;
    while i < v.len()
        invariant
            0 <= i <= v.len(),
            r@ == v@.take(i as int),
        decreases v.len() - i,
    {
        r.push(v[i]);
        proof {
            assert(r@ =~= v@.take(i + 1));
        }
        i = i + 1;
    }
    proof {
        assert(v@.take(v@.len() as int) =~= v@);
    }
    r
}

} // verus!
