use vstd::prelude::*;

verus! {

/// A configuration value that the cell can copy into a fresh draft.
pub trait ConfigValue: View + Sized {
    /// A full copy of the value, equal to it in every observable part.
    fn duplicate(&self) -> (r: Self)
        ensures
            r@ == self@,
    ;
}

/// The abstract state of a transactional cell: the committed value and the
/// pending edit, if one is in progress.
pub struct DraftState<T> {
    pub committed: T,
    pub pending: Option<T>,
}

impl<T> DraftState<T> {
    /// What a reader sees: the pending edit if there is one, else the
    /// committed value.
    pub open spec fn latest(self) -> T {
        match self.pending {
            Some(d) => d,
            None => self.committed,
        }
    }

    /// The state after a commit: a pending edit becomes the committed value.
    pub open spec fn committed_state(self) -> DraftState<T> {
        match self.pending {
            Some(d) => DraftState { committed: d, pending: None },
            None => self,
        }
    }

    /// The state after a discard: the pending edit is dropped.
    pub open spec fn discarded_state(self) -> DraftState<T> {
        DraftState { committed: self.committed, pending: None }
    }

    /// The state once an edit has left the draft holding `e`.
    pub open spec fn edited_state(self, e: T) -> DraftState<T> {
        DraftState { committed: self.committed, pending: Some(e) }
    }
}

/// A transactional configuration cell: one committed value and at most one
/// pending draft, which is a full copy of the value.
pub struct Draft<T> {
    committed: T,
    draft: Option<T>,
}

impl<T> View for Draft<T> {
    type V = DraftState<T>;

    closed spec fn view(&self) -> DraftState<T> {
        DraftState { committed: self.committed, pending: self.draft }
    }
}

impl<T: ConfigValue> Draft<T> {
    /// A cell whose committed value is `value`, with no draft.
    pub fn new(value: T) -> (r: Self)
        ensures
            r@ == (DraftState { committed: value, pending: None }),
    {
        Draft { committed: value, draft: None }
    }

    /// The committed value, ignoring any pending draft.
    pub fn data(&self) -> (r: &T)
        ensures
            *r == self@.committed,
    {
        &self.committed
    }

    /// Direct access to the committed value, bypassing the draft stage.
    pub fn data_mut(&mut self) -> (r: &mut T)
        ensures
            *r == old(self)@.committed,
            final(self)@ == (DraftState { committed: *final(r), pending: old(self)@.pending }),
    {
        &mut self.committed
    }

    /// The value a reader sees: the draft if one is pending, else the
    /// committed value.
    pub fn latest(&self) -> (r: &T)
        ensures
            *r == self@.latest(),
    {
        match &self.draft {
            Some(d) => d,
            None => &self.committed,
        }
    }

    /// Whether an edit is pending.
    pub fn has_draft(&self) -> (r: bool)
        ensures
            r == self@.pending.is_some(),
    {
        self.draft.is_some()
    }

    /// Mutable scratch space: the pending draft, created as a copy of the
    /// committed value when none exists yet.
    pub fn draft_mut(&mut self) -> (r: &mut T)
        ensures
            old(self)@.pending.is_some() ==> *r == old(self)@.pending.unwrap(),
            old(self)@.pending.is_none() ==> r@ == old(self)@.committed@,
            final(self)@ == old(self)@.edited_state(*final(r)),
    {
        if self.draft.is_none() {
            let copy = self.committed.duplicate();
            return self.draft.insert(copy);
        }
        self.draft.as_mut().unwrap()
    }

    /// Promotes the pending draft to the committed value; without a draft
    /// nothing changes.
    pub fn commit(&mut self)
        ensures
            final(self)@ == old(self)@.committed_state(),
    {
        if let Some(d) = self.draft.take() {
            self.committed = d;
        }
    }

    /// Drops the pending draft, leaving the committed value as it was.
    pub fn discard(&mut self)
        ensures
            final(self)@ == old(self)@.discarded_state(),
    {
        self.draft = None;
    }

    /// Replaces the committed value outright and drops any pending draft,
    /// so that every reader sees `value`.
    pub fn commit_value(&mut self, value: T)
        ensures
            final(self)@ == (DraftState { committed: value, pending: None }),
    {
        self.committed = value;
        self.draft = None;
    }
}

/// Committing after an edit publishes the edited value to every reader;
/// discarding after an edit started from a clean cell brings back what
/// readers saw before the edit.
pub proof fn law_commit_or_discard_edit<T>(s: DraftState<T>, e: T)
    ensures
        s.edited_state(e).committed_state().latest() == e,
        s.edited_state(e).committed_state().pending.is_none(),
        s.pending.is_none() ==> s.edited_state(e).discarded_state().latest() == s.latest(),
        s.edited_state(e).discarded_state().committed == s.committed,
{
}

/// With no pending draft, commit and discard leave the cell as it is.
pub proof fn law_commit_discard_without_draft<T>(s: DraftState<T>)
    requires
        s.pending.is_none(),
    ensures
        s.committed_state() == s,
        s.discarded_state() == s,
        s.committed_state().committed == s.committed,
{
}

} // verus!
