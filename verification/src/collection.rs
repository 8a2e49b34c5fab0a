//! The collection of a user's notes: a mapping from note id to note.

use crate::note::{Note, NoteView};
use crate::text::same_text;
use vstd::prelude::*;

verus! {

/// The views of a sequence of notes.
pub open spec fn note_views(notes: Seq<Note>) -> Seq<NoteView> {
    notes.map_values(|n: Note| n@)
}

/// Whether no two of the notes share an id.
pub open spec fn ids_distinct(notes: Seq<NoteView>) -> bool {
    forall|i: int, j: int|
        0 <= i < j < notes.len() ==> (#[trigger] notes[i]).id != (#[trigger] notes[j]).id
}

/// The mapping from id to note that a sequence of notes stands for. Where an
/// id occurs twice, the later note counts.
pub open spec fn as_map(notes: Seq<NoteView>) -> Map<Seq<char>, NoteView>
    decreases notes.len(),
{
    if notes.len() == 0 {
        Map::empty()
    } else {
        as_map(notes.drop_last()).insert(notes.last().id, notes.last())
    }
}

/// The mapping holds exactly the ids of the notes, and under each id of
/// distinct notes the note that has it.
pub proof fn lemma_as_map_entries(notes: Seq<NoteView>)
    ensures
        forall|id: Seq<char>| #[trigger]
            as_map(notes).contains_key(id) <==> exists|i: int|
                0 <= i < notes.len() && (#[trigger] notes[i]).id == id,
        ids_distinct(notes) ==> forall|i: int|
            0 <= i < notes.len() ==> as_map(notes)[(#[trigger] notes[i]).id] == notes[i],
        as_map(notes).dom().finite(),
        ids_distinct(notes) ==> as_map(notes).dom().len() == notes.len(),
    decreases notes.len(),
{
    if notes.len() > 0 {
        let front = notes.drop_last();
        lemma_as_map_entries(front);
        assert forall|id: Seq<char>| #[trigger]
            as_map(notes).contains_key(id) <==> exists|i: int|
                0 <= i < notes.len() && (#[trigger] notes[i]).id == id by {
            if as_map(notes).contains_key(id) {
                if id == notes.last().id {
                    assert(notes[notes.len() - 1].id == id);
                } else {
                    assert(as_map(front).contains_key(id));
                    let i = choose|i: int| 0 <= i < front.len() && (#[trigger] front[i]).id == id;
                    assert(notes[i].id == id);
                }
            }
            if exists|i: int| 0 <= i < notes.len() && (#[trigger] notes[i]).id == id {
                let i = choose|i: int| 0 <= i < notes.len() && (#[trigger] notes[i]).id == id;
                if i < notes.len() - 1 {
                    assert(front[i].id == id);
                }
            }
        }
        if ids_distinct(notes) {
            assert(ids_distinct(front)) by {
                assert forall|i: int, j: int| 0 <= i < j < front.len() implies (
                #[trigger] front[i]).id != (#[trigger] front[j]).id by {
                    assert(front[i] == notes[i] && front[j] == notes[j]);
                }
            }
            assert forall|i: int| 0 <= i < notes.len() implies as_map(notes)[(
            #[trigger] notes[i]).id] == notes[i] by {
                if i < notes.len() - 1 {
                    assert(front[i] == notes[i]);
                    assert(notes[i].id != notes[notes.len() - 1].id);
                }
            }
            assert(!as_map(front).contains_key(notes.last().id)) by {
                if as_map(front).contains_key(notes.last().id) {
                    let i = choose|i: int|
                        0 <= i < front.len() && (#[trigger] front[i]).id == notes.last().id;
                    assert(notes[i].id == notes[notes.len() - 1].id);
                }
            }
        }
    }
}

/// Appending a note puts it into the mapping under its id.
pub proof fn lemma_as_map_push(notes: Seq<NoteView>, note: NoteView)
    ensures
        as_map(notes.push(note)) == as_map(notes).insert(note.id, note),
{
    assert(notes.push(note).drop_last() =~= notes);
}

/// Replacing a note by one with the same id replaces it in the mapping.
pub proof fn lemma_as_map_update(notes: Seq<NoteView>, index: int, note: NoteView)
    requires
        ids_distinct(notes),
        0 <= index < notes.len(),
        notes[index].id == note.id,
    ensures
        ids_distinct(notes.update(index, note)),
        as_map(notes.update(index, note)) == as_map(notes).insert(note.id, note),
{
    let after = notes.update(index, note);
    assert(ids_distinct(after)) by {
        assert forall|i: int, j: int| 0 <= i < j < after.len() implies (#[trigger] after[i]).id != (
        #[trigger] after[j]).id by {
            assert(after[i].id == notes[i].id && after[j].id == notes[j].id);
        }
    }
    lemma_as_map_entries(notes);
    lemma_as_map_entries(after);
    let expected = as_map(notes).insert(note.id, note);
    assert forall|id: Seq<char>| as_map(after).contains_key(id) <==> expected.contains_key(
        id,
    ) by {
        if as_map(after).contains_key(id) {
            let i = choose|i: int| 0 <= i < after.len() && (#[trigger] after[i]).id == id;
            assert(notes[i].id == id);
        }
        if expected.contains_key(id) && id != note.id {
            let i = choose|i: int| 0 <= i < notes.len() && (#[trigger] notes[i]).id == id;
            assert(after[i].id == id);
        }
        if id == note.id {
            assert(after[index].id == id);
        }
    }
    assert forall|id: Seq<char>| as_map(after).contains_key(id) implies as_map(after)[id]
        == expected[id] by {
        let i = choose|i: int| 0 <= i < after.len() && (#[trigger] after[i]).id == id;
        assert(as_map(after)[after[i].id] == after[i]);
        if i != index {
            assert(notes[i].id == id);
            assert(as_map(notes)[notes[i].id] == notes[i]);
            assert(after[i] == notes[i]);
            assert(notes[i].id != notes[index].id);
        }
    }
    assert(as_map(after) =~= expected);
}

/// Removing a note removes its id from the mapping.
pub proof fn lemma_as_map_remove(notes: Seq<NoteView>, index: int)
    requires
        ids_distinct(notes),
        0 <= index < notes.len(),
    ensures
        ids_distinct(notes.remove(index)),
        as_map(notes.remove(index)) == as_map(notes).remove(notes[index].id),
{
    let after = notes.remove(index);
    assert forall|i: int| 0 <= i < after.len() implies #[trigger] after[i] == notes[if i
        < index {
        i
    } else {
        i + 1
    }] by {}
    assert(ids_distinct(after)) by {
        assert forall|i: int, j: int| 0 <= i < j < after.len() implies (#[trigger] after[i]).id != (
        #[trigger] after[j]).id by {
            let i0 = if i < index { i } else { i + 1 };
            let j0 = if j < index { j } else { j + 1 };
            assert(after[i] == notes[i0] && after[j] == notes[j0]);
        }
    }
    lemma_as_map_entries(notes);
    lemma_as_map_entries(after);
    let expected = as_map(notes).remove(notes[index].id);
    assert forall|id: Seq<char>| as_map(after).contains_key(id) <==> expected.contains_key(
        id,
    ) by {
        if as_map(after).contains_key(id) {
            let i = choose|i: int| 0 <= i < after.len() && (#[trigger] after[i]).id == id;
            let i0 = if i < index { i } else { i + 1 };
            assert(after[i] == notes[i0]);
            assert(notes[i0].id == id);
            assert(notes[i0].id != notes[index].id);
        }
        if expected.contains_key(id) {
            let i = choose|i: int| 0 <= i < notes.len() && (#[trigger] notes[i]).id == id;
            assert(i != index);
            let i1 = if i < index { i } else { i - 1 };
            assert(after[i1] == notes[i]);
            assert(after[i1].id == id);
        }
    }
    assert forall|id: Seq<char>| as_map(after).contains_key(id) implies as_map(after)[id]
        == expected[id] by {
        let i = choose|i: int| 0 <= i < after.len() && (#[trigger] after[i]).id == id;
        let i0 = if i < index { i } else { i + 1 };
        assert(after[i] == notes[i0]);
        assert(as_map(after)[after[i].id] == after[i]);
        assert(as_map(notes)[notes[i0].id] == notes[i0]);
    }
    assert(as_map(after) =~= expected);
}

/// A user's notes, each under its id.
#[derive(Debug)]
pub struct NoteCollection {
    notes: Vec<Note>,
}

impl View for NoteCollection {
    type V = Map<Seq<char>, NoteView>;

    closed spec fn view(&self) -> Map<Seq<char>, NoteView> {
        as_map(note_views(self.notes@))
    }
}

impl NoteCollection {
    #[verifier::type_invariant]
    spec fn inv(self) -> bool {
        ids_distinct(note_views(self.notes@))
    }

    /// The notes in the order in which the collection holds them: each id
    /// once, and together the notes of the mapping.
    pub closed spec fn entries(&self) -> Seq<NoteView> {
        note_views(self.notes@)
    }

    /// An empty collection.
    pub fn new() -> (r: Self)
        ensures
            r@ == Map::<Seq<char>, NoteView>::empty(),
            r.entries() == Seq::<NoteView>::empty(),
    {
        let r = NoteCollection { notes: Vec::new() };
        assert(r.entries() =~= Seq::<NoteView>::empty());
        r
    }

    /// The number of notes.
    pub fn len(&self) -> (r: usize)
        ensures
            r == self@.dom().len(),
            r == self.entries().len(),
            self@.dom().finite(),
            self@ == as_map(self.entries()),
            ids_distinct(self.entries()),
    {
        proof {
            use_type_invariant(self);
            lemma_as_map_entries(self.entries());
        }
        self.notes.len()
    }

    /// Whether the collection holds no note.
    pub fn is_empty(&self) -> (r: bool)
        ensures
            r == (self@.dom().len() == 0),
            r == (self@ == Map::<Seq<char>, NoteView>::empty()),
    {
        proof {
            use_type_invariant(self);
            lemma_as_map_entries(self.entries());
            if self.notes@.len() > 0 {
                assert(self@.contains_key(self.entries()[0].id));
            }
        }
        self.notes.len() == 0
    }

    fn find(&self, id: &str) -> (r: Option<usize>)
        ensures
            match r {
                Some(i) => i < self.entries().len() && self.entries()[i as int].id == id@
                    && self@.contains_key(id@) && self@[id@] == self.entries()[i as int],
                None => !self@.contains_key(id@),
            },
    {
        proof {
            use_type_invariant(self);
        }
        let mut i: usize = 0;
        while i < self.notes.len()
            invariant
                i <= self.notes.len(),
                ids_distinct(self.entries()),
                forall|j: int| 0 <= j < i ==> (#[trigger] self.entries()[j]).id != id@,
            decreases self.notes.len() - i,
        {
            if same_text(self.notes[i].id(), id) {
                proof {
                    lemma_as_map_entries(self.entries());
                    assert(self.entries()[i as int].id == id@);
                }
                return Some(i);
            }
            i += 1;
        }
        proof {
            lemma_as_map_entries(self.entries());
        }
        None
    }

    fn take_notes(&mut self) -> (notes: Vec<Note>)
        ensures
            note_views(notes@) == old(self).entries(),
            final(self).entries() == Seq::<NoteView>::empty(),
    {
        let mut taken = NoteCollection { notes: Vec::new() };
        assert(taken.entries() =~= Seq::<NoteView>::empty());
        std::mem::swap(self, &mut taken);
        taken.notes
    }

    /// Whether a note has this id.
    pub fn contains(&self, id: &str) -> (r: bool)
        ensures
            r == self@.contains_key(id@),
    {
        self.find(id).is_some()
    }

    /// The note with this id.
    pub fn get(&self, id: &str) -> (r: Option<&Note>)
        ensures
            match r {
                Some(note) => self@.contains_key(id@) && self@[id@] == note@,
                None => !self@.contains_key(id@),
            },
    {
        match self.find(id) {
            Some(i) => Some(&self.notes[i]),
            None => None,
        }
    }

    /// The note at position `index` of [`NoteCollection::entries`].
    pub fn note_at(&self, index: usize) -> (r: Option<&Note>)
        ensures
            match r {
                Some(note) => index < self.entries().len() && note@ == self.entries()[index as int]
                    && self@.contains_key(note@.id) && self@[note@.id] == note@,
                None => index >= self.entries().len(),
            },
    {
        proof {
            use_type_invariant(self);
            lemma_as_map_entries(self.entries());
        }
        if index < self.notes.len() {
            Some(&self.notes[index])
        } else {
            None
        }
    }

    /// Puts `note` into the collection under its id, in place of the note that
    /// had the id, if there was one.
    pub fn insert(&mut self, note: Note)
        ensures
            final(self)@ == old(self)@.insert(note@.id, note@),
    {
        proof {
            use_type_invariant(&*self);
        }
        let ghost before = self.entries();
        let ghost added = note@;
        let found = self.find(note.id());
        let mut notes = self.take_notes();
        match found {
            Some(i) => {
                notes.set(i, note);
                proof {
                    assert(note_views(notes@) =~= before.update(i as int, added));
                    lemma_as_map_update(before, i as int, added);
                }
            },
            None => {
                notes.push(note);
                proof {
                    assert(note_views(notes@) =~= before.push(added));
                    lemma_as_map_push(before, added);
                    lemma_as_map_entries(before);
                    assert forall|i: int, j: int|
                        0 <= i < j < before.push(added).len() implies (#[trigger] before.push(
                        added,
                    )[i]).id != (#[trigger] before.push(added)[j]).id by {
                        if j == before.len() {
                            assert(before[i].id != added.id);
                        } else {
                            assert(before.push(added)[i] == before[i]);
                            assert(before.push(added)[j] == before[j]);
                        }
                    }
                }
            },
        }
        *self = NoteCollection { notes };
    }

    /// Takes the note with this id out of the collection.
    pub fn remove(&mut self, id: &str) -> (r: Option<Note>)
        ensures
            final(self)@ == old(self)@.remove(id@),
            match r {
                Some(note) => old(self)@.contains_key(id@) && note@ == old(self)@[id@],
                None => !old(self)@.contains_key(id@),
            },
    {
        proof {
            use_type_invariant(&*self);
        }
        let ghost before = self.entries();
        match self.find(id) {
            None => {
                assert(self@.remove(id@) =~= self@);
                None
            },
            Some(i) => {
                let mut notes = self.take_notes();
                let note = notes.remove(i);
                proof {
                    assert(note_views(notes@) =~= before.remove(i as int));
                    lemma_as_map_remove(before, i as int);
                }
                *self = NoteCollection { notes };
                Some(note)
            },
        }
    }

    /// Removes every note.
    pub fn clear(&mut self)
        ensures
            final(self)@ == Map::<Seq<char>, NoteView>::empty(),
    {
        let r = NoteCollection { notes: Vec::new() };
        assert(r.entries() =~= Seq::<NoteView>::empty());
        *self = r;
    }
}

} // verus!
