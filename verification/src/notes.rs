//! The note-collection editor: a pure reducer over the note model.
//!
//! The model owns an ordered list of notes, the entry buffer and an
//! exclusive inline-edit slot. Every intent application is total: an
//! out-of-range index is a silent no-op, a whitespace-only commit is
//! rejected without clearing what the user typed, and a reorder request
//! that is not a genuine permutation is ignored. Deleting or reordering
//! while an edit is open re-derives the edit slot's index, so it keeps
//! pointing at the same note; deleting the edited note itself closes the
//! slot.

use vstd::prelude::*;

use crate::perm::{
    apply_perm, lemma_apply_perm_multiset, lemma_perm_position_unique, lemma_perm_surjective,
    perm_position, valid_perm,
};
use crate::text::{spec_trim, trim_text};

verus! {

/// The mathematical model of the editor state: the entry buffer, the
/// ordered notes, and the open edit slot with its draft, if any.
#[verifier::ext_equal]
pub struct NoteModelView {
    /// What the entry buffer holds.
    pub input: Seq<char>,
    /// The notes, in display order; duplicates are allowed.
    pub notes: Seq<Seq<char>>,
    /// The open edit slot: the edited note's index and the draft text.
    pub editing: Option<(int, Seq<char>)>,
}

impl NoteModelView {
    /// The model invariant: an open edit slot points inside the note list.
    pub open spec fn wf(self) -> bool {
        match self.editing {
            Some((i, _)) => 0 <= i < self.notes.len(),
            None => true,
        }
    }

    /// Replace the entry buffer.
    pub open spec fn set_input(self, t: Seq<char>) -> NoteModelView {
        NoteModelView { input: t, ..self }
    }

    /// Commit the entry buffer: append its trimmed text as the new
    /// highest-index note and clear the buffer, unless the trimmed text is
    /// empty, in which case nothing changes — the buffer is kept.
    pub open spec fn add_note(self) -> NoteModelView {
        let t = spec_trim(self.input);
        if t.len() > 0 {
            NoteModelView { input: Seq::empty(), notes: self.notes.push(t), ..self }
        } else {
            self
        }
    }

    /// Remove the note at `i`, shifting later notes down one index; out of
    /// range is a no-op. An edit slot on the removed note closes; one on a
    /// later note follows its note down one index.
    pub open spec fn delete(self, i: int) -> NoteModelView {
        if 0 <= i < self.notes.len() {
            let editing = match self.editing {
                Some((j, d)) => if j == i {
                    None
                } else if j > i {
                    Some((j - 1, d))
                } else {
                    Some((j, d))
                },
                None => None,
            };
            NoteModelView { notes: self.notes.remove(i), editing, ..self }
        } else {
            self
        }
    }

    /// Open the edit slot on the note at `i`, with a copy of that note as
    /// the draft; out of range is a no-op.
    pub open spec fn edit(self, i: int) -> NoteModelView {
        if 0 <= i < self.notes.len() {
            NoteModelView { editing: Some((i, self.notes[i])), ..self }
        } else {
            self
        }
    }

    /// Replace the draft of the open edit slot; a no-op when none is open.
    pub open spec fn set_edit_input(self, t: Seq<char>) -> NoteModelView {
        match self.editing {
            Some((i, _)) => NoteModelView { editing: Some((i, t)), ..self },
            None => self,
        }
    }

    /// Commit the open edit slot: store the trimmed draft over the edited
    /// note, unless the trimmed draft is empty or the index is out of
    /// range. The slot closes in every case; with none open nothing
    /// changes.
    pub open spec fn save_edit(self) -> NoteModelView {
        match self.editing {
            Some((i, d)) => {
                let t = spec_trim(d);
                if t.len() > 0 && 0 <= i < self.notes.len() {
                    NoteModelView { notes: self.notes.update(i, t), editing: None, ..self }
                } else {
                    NoteModelView { editing: None, ..self }
                }
            },
            None => self,
        }
    }

    /// Close the edit slot, discarding any draft.
    pub open spec fn cancel_edit(self) -> NoteModelView {
        NoteModelView { editing: None, ..self }
    }

    /// Put the notes in the order the permutation names: position `k` of
    /// the new order takes the note `perm[k]` pointed at. A request that is
    /// not a permutation of the current indices is ignored. An open edit
    /// slot follows its note to the note's new position.
    pub open spec fn reorder(self, perm: Seq<usize>) -> NoteModelView {
        if valid_perm(perm, self.notes.len()) {
            let editing = match self.editing {
                Some((i, d)) => Some((perm_position(perm, i), d)),
                None => None,
            };
            NoteModelView { notes: apply_perm(self.notes, perm), editing, ..self }
        } else {
            self
        }
    }
}

/// The editor state as the host holds it, with the model of
/// [`NoteModelView`] as its view.
#[derive(Debug)]
pub struct NoteModel {
    /// The entry buffer.
    pub input: String,
    /// The notes, in display order.
    pub notes: Vec<String>,
    /// The open edit slot: index of the edited note and the draft text.
    pub editing: Option<(usize, String)>,
}

impl View for NoteModel {
    type V = NoteModelView;

    open spec fn view(&self) -> NoteModelView {
        NoteModelView {
            input: self.input@,
            notes: self.notes.deep_view(),
            editing: match self.editing {
                Some((i, d)) => Some((i as int, d@)),
                None => None,
            },
        }
    }
}

impl NoteModel {
    /// The starting state: everything empty, no edit open.
    pub fn new() -> (m: NoteModel)
        ensures
            m@ == (NoteModelView {
                input: Seq::<char>::empty(),
                notes: Seq::<Seq<char>>::empty(),
                editing: None,
            }),
            m@.wf(),
    {
        let m = NoteModel { input: String::new(), notes: Vec::new(), editing: None };
        proof {
            assert(m@.notes =~= Seq::<Seq<char>>::empty());
        }
        m
    }

    /// Replace the entry buffer with what the host reports.
    pub fn set_input(&mut self, t: String)
        requires
            old(self)@.wf(),
        ensures
            final(self)@ == old(self)@.set_input(t@),
            final(self)@.wf(),
    {
        self.input = t;
    }

    /// Commit the entry buffer as a new note, as
    /// [`NoteModelView::add_note`] says: append the trimmed text and clear
    /// the buffer, or change nothing when only whitespace was typed.
    pub fn add_note(&mut self)
        requires
            old(self)@.wf(),
        ensures
            final(self)@ == old(self)@.add_note(),
            final(self)@.wf(),
    {
        let t = trim_text(self.input.as_str());
        let ghost tv = t@;
        if t.as_str().unicode_len() > 0 {
            self.notes.push(t);
            self.input = String::new();
            proof {
                assert(self@.notes =~= old(self)@.notes.push(tv));
                assert(self@ =~= old(self)@.add_note());
            }
        }
    }

    /// Remove the note at `i`, as [`NoteModelView::delete`] says:
    /// out of range is a no-op, an edit slot on the removed note closes,
    /// and one on a later note follows its note down one index.
    pub fn delete(&mut self, i: usize)
        requires
            old(self)@.wf(),
        ensures
            final(self)@ == old(self)@.delete(i as int),
            final(self)@.wf(),
    {
        if i < self.notes.len() {
            self.notes.remove(i);
            self.editing = match &self.editing {
                Some((j, d)) => {
                    if *j == i {
                        None
                    } else if *j > i {
                        Some((*j - 1, d.clone()))
                    } else {
                        Some((*j, d.clone()))
                    }
                },
                None => None,
            };
            proof {
                old(self)@.notes.remove_ensures(i as int);
                old(self).notes@.remove_ensures(i as int);
                assert(self@.notes =~= old(self)@.notes.remove(i as int));
                assert(self@ =~= old(self)@.delete(i as int));
            }
        }
    }

    /// Open the edit slot on the note at `i` with a copy of that note as
    /// the draft; out of range is a no-op.
    pub fn edit(&mut self, i: usize)
        requires
            old(self)@.wf(),
        ensures
            final(self)@ == old(self)@.edit(i as int),
            final(self)@.wf(),
    {
        if i < self.notes.len() {
            let d = self.notes[i].clone();
            self.editing = Some((i, d));
            proof {
                assert(self@ =~= old(self)@.edit(i as int));
            }
        }
    }

    /// Replace the draft of the open edit slot with what the host reports;
    /// a no-op when no edit is open.
    pub fn set_edit_input(&mut self, t: String)
        requires
            old(self)@.wf(),
        ensures
            final(self)@ == old(self)@.set_edit_input(t@),
            final(self)@.wf(),
    {
        match &self.editing {
            Some((j, _)) => {
                let j = *j;
                self.editing = Some((j, t));
                proof {
                    assert(self@ =~= old(self)@.set_edit_input(t@));
                }
            },
            None => {},
        }
    }

    /// Commit the open edit slot, as [`NoteModelView::save_edit`] says:
    /// store the trimmed draft over the edited note unless it trims to
    /// nothing, and close the slot in every case.
    pub fn save_edit(&mut self)
        requires
            old(self)@.wf(),
        ensures
            final(self)@ == old(self)@.save_edit(),
            final(self)@.wf(),
    {
        match &self.editing {
            Some((j, d)) => {
                let j = *j;
                let t = trim_text(d.as_str());
                let ghost tv = t@;
                if t.as_str().unicode_len() > 0 && j < self.notes.len() {
                    self.notes[j] = t;
                    proof {
                        assert(self@.notes =~= old(self)@.notes.update(j as int, tv));
                    }
                }
                self.editing = None;
                proof {
                    assert(self@ =~= old(self)@.save_edit());
                }
            },
            None => {},
        }
    }

    /// Close the edit slot, discarding any draft.
    pub fn cancel_edit(&mut self)
        requires
            old(self)@.wf(),
        ensures
            final(self)@ == old(self)@.cancel_edit(),
            final(self)@.wf(),
    {
        self.editing = None;
    }

    /// Put the notes in the order the permutation names, as
    /// [`NoteModelView::reorder`] says: a request that is not a genuine
    /// permutation of the current indices is ignored, and an open edit slot
    /// follows its note to the note's new position.
    #[verifier::loop_isolation(false)]
    pub fn reorder(&mut self, perm: &Vec<usize>)
        requires
            old(self)@.wf(),
        ensures
            final(self)@ == old(self)@.reorder(perm@),
            final(self)@.wf(),
    {
        let n = self.notes.len();
        if perm.len() != n {
            return ;
        }
        let mut seen: Vec<bool> = Vec::new();
        let mut k: usize = 0;
        while k < n
            invariant
                k <= n,
                seen@.len() == k,
                forall|p: int| 0 <= p < k ==> !(#[trigger] seen@[p]),
            decreases n - k,
        {
            seen.push(false);
            k = k + 1;
        }
        let mut k: usize = 0;
        while k < n
            invariant
                k <= n,
                n == perm@.len(),
                seen@.len() == n,
                forall|a: int| 0 <= a < k ==> (#[trigger] perm@[a]) < n,
                forall|p: int|
                    0 <= p < n ==> ((#[trigger] seen@[p]) <==> exists|a: int|
                        0 <= a < k && perm@[a] == p),
                forall|a: int, b: int| 0 <= a < b < k ==> perm@[a] != perm@[b],
            decreases n - k,
        {
            let p = perm[k];
            if p >= n {
                proof {
                    assert(!valid_perm(perm@, old(self)@.notes.len()));
                }
                return ;
            }
            if seen[p] {
                proof {
                    let a = choose|a: int| 0 <= a < k && perm@[a] == p;
                    assert(perm@[a] == perm@[k as int]);
                    assert(!perm@.no_duplicates());
                    assert(!valid_perm(perm@, old(self)@.notes.len()));
                }
                return ;
            }
            seen[p] = true;
            proof {
                assert forall|q: int|
                    0 <= q < n implies ((#[trigger] seen@[q]) <==> exists|a: int|
                        0 <= a < k + 1 && perm@[a] == q) by {
                    if q == p {
                        assert(perm@[k as int] == q);
                    } else {
                        if exists|a: int| 0 <= a < k + 1 && perm@[a] == q {
                            let a = choose|a: int| 0 <= a < k + 1 && perm@[a] == q;
                            assert(a < k);
                            assert(exists|a2: int| 0 <= a2 < k && perm@[a2] == q);
                        }
                    }
                }
            }
            k = k + 1;
        }
        proof {
            assert(perm@.no_duplicates()) by {
                assert forall|a: int, b: int|
                    0 <= a < n && 0 <= b < n && a != b implies perm@[a] != perm@[b] by {
                    if a < b {
                        assert(perm@[a] != perm@[b]);
                    } else {
                        assert(perm@[b] != perm@[a]);
                    }
                }
            }
            assert(valid_perm(perm@, old(self)@.notes.len()));
        }
        let mut new_notes: Vec<String> = Vec::new();
        let mut k: usize = 0;
        while k < n
            invariant
                k <= n,
                n == perm@.len(),
                n == self.notes@.len(),
                valid_perm(perm@, n as nat),
                new_notes@.len() == k,
                forall|m: int|
                    0 <= m < k ==> (#[trigger] new_notes.deep_view()[m]) == self.notes.deep_view()[
                        perm@[m] as int
                    ],
            decreases n - k,
        {
            let ghost prev = new_notes.deep_view();
            let note = self.notes[perm[k]].clone();
            let ghost notev = note@;
            new_notes.push(note);
            proof {
                assert forall|m: int|
                    0 <= m < k + 1 implies (#[trigger] new_notes.deep_view()[m])
                    == self.notes.deep_view()[perm@[m] as int] by {
                    if m < k {
                        assert(new_notes.deep_view()[m] == prev[m]);
                    } else {
                        assert(new_notes@[k as int]@ == notev);
                    }
                }
            }
            k = k + 1;
        }
        let new_editing: Option<(usize, String)> = match &self.editing {
            Some((i, d)) => {
                let i = *i;
                proof {
                    lemma_perm_surjective(perm@, n as nat, i as int);
                }
                let mut j: usize = 0;
                let mut pos: usize = 0;
                let mut found = false;
                while j < n
                    invariant
                        j <= n,
                        n == perm@.len(),
                        found ==> pos < n && perm@[pos as int] == i,
                        !found ==> forall|a: int| 0 <= a < j ==> (#[trigger] perm@[a]) != i,
                        exists|a: int| 0 <= a < n && (#[trigger] perm@[a]) == i,
                    decreases n - j,
                {
                    if perm[j] == i {
                        pos = j;
                        found = true;
                    }
                    j = j + 1;
                }
                proof {
                    assert(found);
                    lemma_perm_position_unique(
                        perm@,
                        old(self)@.notes.len(),
                        pos as int,
                        i as int,
                    );
                }
                Some((pos, d.clone()))
            },
            None => None,
        };
        self.notes = new_notes;
        self.editing = new_editing;
        proof {
            assert(self@.notes =~= apply_perm(old(self)@.notes, perm@));
            assert(self@ =~= old(self)@.reorder(perm@));
        }
    }

    /// Apply one intent, dispatching to the transition it names.
    pub fn apply(&mut self, it: Intent)
        requires
            old(self)@.wf(),
        ensures
            final(self)@ == spec_apply_intent(old(self)@, it),
            final(self)@.wf(),
    {
        match it {
            Intent::SetInput(t) => self.set_input(t),
            Intent::AddNote => self.add_note(),
            Intent::Delete(i) => self.delete(i),
            Intent::Edit(i) => self.edit(i),
            Intent::SetEditInput(t) => self.set_edit_input(t),
            Intent::SaveEdit => self.save_edit(),
            Intent::CancelEdit => self.cancel_edit(),
            Intent::Reorder(p) => self.reorder(&p),
        }
    }
}

/// One editing intent, as the host translates raw UI events into them.
#[derive(Debug)]
pub enum Intent {
    /// The entry buffer changed to this text.
    SetInput(String),
    /// Commit the entry buffer as a new note.
    AddNote,
    /// Remove the note at this index.
    Delete(usize),
    /// Open the edit slot on the note at this index.
    Edit(usize),
    /// The open edit slot's draft changed to this text.
    SetEditInput(String),
    /// Commit the open edit slot.
    SaveEdit,
    /// Close the edit slot, discarding the draft.
    CancelEdit,
    /// Put the notes in the order this permutation names.
    Reorder(Vec<usize>),
}

/// What one intent does to the model: the reducer that [`NoteModel::apply`]
/// implements.
pub open spec fn spec_apply_intent(m: NoteModelView, it: Intent) -> NoteModelView {
    match it {
        Intent::SetInput(t) => m.set_input(t@),
        Intent::AddNote => m.add_note(),
        Intent::Delete(i) => m.delete(i as int),
        Intent::Edit(i) => m.edit(i as int),
        Intent::SetEditInput(t) => m.set_edit_input(t@),
        Intent::SaveEdit => m.save_edit(),
        Intent::CancelEdit => m.cancel_edit(),
        Intent::Reorder(p) => m.reorder(p@),
    }
}

/// The reducer is total and keeps the model invariant: applying any intent
/// to a well-formed model yields a well-formed model — an open edit slot
/// always points inside the note list.
pub proof fn lemma_intent_preserves_wf(m: NoteModelView, it: Intent)
    requires
        m.wf(),
    ensures
        spec_apply_intent(m, it).wf(),
{
    match it {
        Intent::Reorder(p) => {
            if valid_perm(p@, m.notes.len()) {
                match m.editing {
                    Some((i, _)) => {
                        lemma_perm_surjective(p@, m.notes.len(), i);
                        let j = perm_position(p@, i);
                        assert(0 <= j < p@.len() && p@[j] == i);
                    },
                    None => {},
                }
            }
        },
        _ => {},
    }
}

/// Committing a non-blank entry grows the list by exactly its trimmed text:
/// for any model and any text that does not trim to nothing, setting the
/// buffer and adding appends `trim(s)` as the new highest-index note, clears
/// the buffer and touches nothing else.
pub proof fn lemma_add_note_growth(m: NoteModelView, s: Seq<char>)
    requires
        spec_trim(s).len() > 0,
    ensures
        m.set_input(s).add_note() == (NoteModelView {
            input: Seq::<char>::empty(),
            notes: m.notes.push(spec_trim(s)),
            ..m
        }),
{
}

/// Committing a blank entry changes nothing: when the buffer trims to
/// nothing, adding neither grows the list nor clears the buffer.
pub proof fn lemma_add_note_blank_no_op(m: NoteModelView)
    requires
        spec_trim(m.input).len() == 0,
    ensures
        m.add_note() == m,
{
}

/// Deleting out of range is a no-op: for any index at or past the end of
/// the list, the model is left exactly as it was.
pub proof fn lemma_delete_out_of_range(m: NoteModelView, i: int)
    requires
        i >= m.notes.len(),
    ensures
        m.delete(i) == m,
{
}

/// The edit round trip: opening the slot on a valid index, replacing the
/// draft with text that does not trim to nothing and saving stores exactly
/// the trimmed draft over that note and closes the slot, touching nothing
/// else.
pub proof fn lemma_edit_save_round_trip(m: NoteModelView, i: int, t: Seq<char>)
    requires
        0 <= i < m.notes.len(),
        spec_trim(t).len() > 0,
    ensures
        m.edit(i).set_edit_input(t).save_edit() == (NoteModelView {
            notes: m.notes.update(i, spec_trim(t)),
            editing: None,
            ..m
        }),
{
}

/// Cancelling discards the draft: whatever was typed into the slot, the
/// notes and the entry buffer are exactly as before and the slot is closed.
pub proof fn lemma_cancel_discards_draft(m: NoteModelView, i: int, t: Seq<char>)
    requires
        0 <= i < m.notes.len(),
    ensures
        m.edit(i).set_edit_input(t).cancel_edit() == (NoteModelView { editing: None, ..m }),
{
}

/// Reordering preserves the multiset of notes: whatever index sequence is
/// handed in, the resulting list holds exactly the same notes, none lost
/// and none duplicated — a genuine permutation rearranges them, anything
/// else is ignored.
pub proof fn lemma_reorder_preserves_multiset(m: NoteModelView, perm: Seq<usize>)
    ensures
        m.reorder(perm).notes.to_multiset() == m.notes.to_multiset(),
{
    if valid_perm(perm, m.notes.len()) {
        lemma_apply_perm_multiset(m.notes, perm);
    }
}

} // verus!
