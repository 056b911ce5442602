//! Generic undo/redo stack that stores immutable snapshots.
//!
//! Pushing a new state clears any redo history.  The stack has no maximum
//! size.

use vstd::prelude::*;

verus! {

/// The abstract history: past states (most recent last), the current state,
/// and the undone states waiting to be redone (next one last).
pub struct History<T> {
    pub past: Seq<T>,
    pub current: T,
    pub future: Seq<T>,
}

/// History after recording `state` as the new current state.
pub open spec fn spec_push<T>(h: History<T>, state: T) -> History<T> {
    History { past: h.past.push(h.current), current: state, future: Seq::empty() }
}

/// History after one undo (unchanged when there is nothing to undo).
pub open spec fn spec_undo<T>(h: History<T>) -> History<T> {
    if h.past.len() == 0 {
        h
    } else {
        History { past: h.past.drop_last(), current: h.past.last(), future: h.future.push(h.current) }
    }
}

/// History after one redo (unchanged when there is nothing to redo).
pub open spec fn spec_redo<T>(h: History<T>) -> History<T> {
    if h.future.len() == 0 {
        h
    } else {
        History { past: h.past.push(h.current), current: h.future.last(), future: h.future.drop_last() }
    }
}

/// All states in chronological order: past, current, then the redo states
/// from the nearest to the furthest.
pub open spec fn timeline<T>(h: History<T>) -> Seq<T> {
    h.past.push(h.current) + h.future.reverse()
}

/// Generic undo/redo stack that stores immutable snapshots.
#[derive(Clone, Debug)]
pub struct UndoRedoStack<T> {
    /// Past states (most recent at the end). Does not include current.
    undo_stack: Vec<T>,
    /// Future states (most recent undo at the end).
    redo_stack: Vec<T>,
    /// The current state.
    current: T,
}

impl<T> View for UndoRedoStack<T> {
    type V = History<T>;

    closed spec fn view(&self) -> History<T> {
        History { past: self.undo_stack@, current: self.current, future: self.redo_stack@ }
    }
}

impl<T> UndoRedoStack<T> {
    /// Create a new undo/redo stack with the given initial state.
    pub fn new(initial: T) -> (s: Self)
        ensures
            s@ == (History { past: Seq::<T>::empty(), current: initial, future: Seq::<T>::empty() }),
    {
        let s = UndoRedoStack { undo_stack: Vec::new(), redo_stack: Vec::new(), current: initial };
        assert(s@ == (History { past: Seq::<T>::empty(), current: initial, future: Seq::<T>::empty() }));
        s
    }

    /// Push a new state onto the stack. Clears any redo history.
    pub fn push(&mut self, state: T)
        ensures
            final(self)@ == spec_push(old(self)@, state),
    {
        let mut prev = state;
        std::mem::swap(&mut self.current, &mut prev);
        self.undo_stack.push(prev);
        self.redo_stack = Vec::new();
        assert(self@ == spec_push(old(self)@, state)) by {
            assert(self.redo_stack@ =~= Seq::<T>::empty());
        }
    }

    /// Undo the last change, returning the restored state.
    /// Returns `None` if there is nothing to undo.
    pub fn undo(&mut self) -> (r: Option<&T>)
        ensures
            final(self)@ == spec_undo(old(self)@),
            r is Some == (old(self)@.past.len() > 0),
            r matches Some(v) ==> *v == final(self)@.current,
    {
        match self.undo_stack.pop() {
            None => None,
            Some(prev) => {
                let mut prev = prev;
                std::mem::swap(&mut self.current, &mut prev);
                self.redo_stack.push(prev);
                Some(&self.current)
            },
        }
    }

    /// Redo the last undone change, returning the restored state.
    /// Returns `None` if there is nothing to redo.
    pub fn redo(&mut self) -> (r: Option<&T>)
        ensures
            final(self)@ == spec_redo(old(self)@),
            r is Some == (old(self)@.future.len() > 0),
            r matches Some(v) ==> *v == final(self)@.current,
    {
        match self.redo_stack.pop() {
            None => None,
            Some(next) => {
                let mut next = next;
                std::mem::swap(&mut self.current, &mut next);
                self.undo_stack.push(next);
                Some(&self.current)
            },
        }
    }

    /// Get a reference to the current state.
    pub fn current(&self) -> (r: &T)
        ensures
            *r == self@.current,
    {
        &self.current
    }

    /// Get a mutable reference to the current state.
    ///
    /// Mutating the current state directly bypasses undo history.
    /// Prefer using `push()` for trackable changes.
    pub fn current_mut(&mut self) -> (r: &mut T)
        ensures
            *r == old(self)@.current,
            final(self)@ == (History { current: *final(r), ..old(self)@ }),
    {
        &mut self.current
    }

    /// Whether there are any states to undo.
    pub fn can_undo(&self) -> (r: bool)
        ensures
            r == (self@.past.len() > 0),
    {
        !self.undo_stack.is_empty()
    }

    /// Whether there are any states to redo.
    pub fn can_redo(&self) -> (r: bool)
        ensures
            r == (self@.future.len() > 0),
    {
        !self.redo_stack.is_empty()
    }

    /// Number of undo steps available.
    pub fn undo_count(&self) -> (n: usize)
        ensures
            n == self@.past.len(),
    {
        self.undo_stack.len()
    }

    /// Number of redo steps available.
    pub fn redo_count(&self) -> (n: usize)
        ensures
            n == self@.future.len(),
    {
        self.redo_stack.len()
    }

    /// Reset the stack to a new initial state, clearing all history.
    pub fn reset(&mut self, state: T)
        ensures
            final(self)@ == (History { past: Seq::<T>::empty(), current: state, future: Seq::<T>::empty() }),
    {
        self.undo_stack = Vec::new();
        self.redo_stack = Vec::new();
        self.current = state;
        assert(self.undo_stack@ =~= Seq::<T>::empty());
        assert(self.redo_stack@ =~= Seq::<T>::empty());
    }
}

// ---------------------------------------------------------------------------
// Laws
// ---------------------------------------------------------------------------

/// Undoing right after a push restores the state before the push; the
/// pushed state becomes the only redo step.
pub proof fn lemma_undo_after_push<T>(h: History<T>, state: T)
    ensures
        spec_undo(spec_push(h, state)) == (History {
            past: h.past,
            current: h.current,
            future: seq![state],
        }),
{
    assert(h.past.push(h.current).drop_last() =~= h.past);
    assert(Seq::<T>::empty().push(state) =~= seq![state]);
}

/// Redo undoes an undo.
pub proof fn lemma_redo_after_undo<T>(h: History<T>)
    requires
        h.past.len() > 0,
    ensures
        spec_redo(spec_undo(h)) == h,
{
    assert(h.past.drop_last().push(h.past.last()) =~= h.past);
    assert(h.future.push(h.current).drop_last() =~= h.future);
}

/// Undo undoes a redo.
pub proof fn lemma_undo_after_redo<T>(h: History<T>)
    requires
        h.future.len() > 0,
    ensures
        spec_undo(spec_redo(h)) == h,
{
    assert(h.future.drop_last().push(h.future.last()) =~= h.future);
    assert(h.past.push(h.current).drop_last() =~= h.past);
}

/// Undo and redo move through the same timeline without changing it, and
/// keep the total number of undo and redo steps.
pub proof fn lemma_undo_redo_keep_timeline<T>(h: History<T>)
    ensures
        timeline(spec_undo(h)) == timeline(h),
        timeline(spec_redo(h)) == timeline(h),
        spec_undo(h).past.len() + spec_undo(h).future.len() == h.past.len() + h.future.len(),
        spec_redo(h).past.len() + spec_redo(h).future.len() == h.past.len() + h.future.len(),
{
    if h.past.len() > 0 {
        let u = spec_undo(h);
        assert(u.future.reverse() =~= seq![h.current] + h.future.reverse());
        assert(h.past.drop_last().push(h.past.last()) =~= h.past);
        assert(timeline(u) =~= timeline(h));
    }
    if h.future.len() > 0 {
        let r = spec_redo(h);
        assert(h.future.reverse() =~= seq![h.future.last()] + h.future.drop_last().reverse());
        assert(timeline(r) =~= timeline(h));
    }
}

/// A push keeps the timeline up to the current state, appends the new
/// state, and drops everything that could have been redone.
pub proof fn lemma_push_timeline<T>(h: History<T>, state: T)
    ensures
        timeline(spec_push(h, state)) == h.past.push(h.current).push(state),
{
    assert(Seq::<T>::empty().reverse() =~= Seq::<T>::empty());
    assert(timeline(spec_push(h, state)) =~= h.past.push(h.current).push(state));
}

} // verus!
