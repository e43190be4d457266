//! Operations on a list of notes, keyed by note identifier: lookup,
//! replacement, removal and the active (unarchived) selection.
use crate::domain::{Note, NoteId, NoteView};
use vstd::prelude::*;

verus! {

broadcast use vstd::seq_lib::group_seq_properties;

/// The notes of a list, as mathematical values.
pub open spec fn views(notes: Seq<Note>) -> Seq<NoteView> {
    notes.map_values(|n: Note| n@)
}

/// Whether position `i` holds the first note with identifier `id`.
pub open spec fn is_first_with_id(s: Seq<NoteView>, id: Seq<char>, i: int) -> bool {
    &&& 0 <= i < s.len()
    &&& s[i].id == id
    &&& forall|j: int| 0 <= j < i ==> (#[trigger] s[j]).id != id
}

/// Whether some note of `s` has identifier `id`.
pub open spec fn contains_id(s: Seq<NoteView>, id: Seq<char>) -> bool {
    exists|i: int| 0 <= i < s.len() && (#[trigger] s[i]).id == id
}

/// The position of the first note with identifier `id`, or -1 if there is none.
pub open spec fn index_of_id(s: Seq<NoteView>, id: Seq<char>) -> int {
    if contains_id(s, id) {
        choose|i: int| is_first_with_id(s, id, i)
    } else {
        -1
    }
}

/// `s` with the first note that shares `n`'s identifier replaced by `n`;
/// `s` itself if no note has that identifier.
pub open spec fn replaced(s: Seq<NoteView>, n: NoteView) -> Seq<NoteView> {
    let i = index_of_id(s, n.id);
    if i >= 0 {
        s.update(i, n)
    } else {
        s
    }
}

/// Whether a note has an identifier other than `id`.
pub open spec fn other_id(id: Seq<char>) -> spec_fn(NoteView) -> bool {
    |v: NoteView| v.id != id
}

/// Whether a note is not archived.
pub open spec fn unarchived() -> spec_fn(NoteView) -> bool {
    |v: NoteView| !v.archived
}

/// `s` without any note whose identifier is `id`.
pub open spec fn without_id(s: Seq<NoteView>, id: Seq<char>) -> Seq<NoteView> {
    s.filter(other_id(id))
}

/// The notes of `s` that are not archived, in order.
pub open spec fn active(s: Seq<NoteView>) -> Seq<NoteView> {
    s.filter(unarchived())
}

/// The first index with the identifier is the one that `index_of_id` names.
pub proof fn lemma_index_of_id(s: Seq<NoteView>, id: Seq<char>, i: int)
    requires
        is_first_with_id(s, id, i),
    ensures
        index_of_id(s, id) == i,
{
    assert(contains_id(s, id));
    let k = choose|k: int| is_first_with_id(s, id, k);
    assert(is_first_with_id(s, id, k));
    if k < i {
        assert(s[k].id != id);
    } else if k > i {
        assert(s[i].id != id);
    }
}

/// A list that holds identifier `id` has a first note with it.
pub proof fn lemma_first_with_id_exists(s: Seq<NoteView>, id: Seq<char>, j: int)
    requires
        0 <= j < s.len(),
        s[j].id == id,
    ensures
        exists|i: int| is_first_with_id(s, id, i),
    decreases j,
{
    if exists|k: int| 0 <= k < j && (#[trigger] s[k]).id == id {
        let k = choose|k: int| 0 <= k < j && (#[trigger] s[k]).id == id;
        lemma_first_with_id_exists(s, id, k);
    } else {
        assert(is_first_with_id(s, id, j));
    }
}

/// `index_of_id` is -1 or the position of the first note with the identifier.
pub proof fn lemma_index_of_id_range(s: Seq<NoteView>, id: Seq<char>)
    ensures
        index_of_id(s, id) == -1 || is_first_with_id(s, id, index_of_id(s, id)),
{
    if contains_id(s, id) {
        let j = choose|j: int| 0 <= j < s.len() && (#[trigger] s[j]).id == id;
        lemma_first_with_id_exists(s, id, j);
    }
}

/// The position of the first note with identifier `id`.
pub fn find_index(notes: &Vec<Note>, id: &NoteId) -> (r: Option<usize>)
    ensures
        match r {
            Some(i) => i == index_of_id(views(notes@), id@) && i < notes@.len(),
            None => index_of_id(views(notes@), id@) == -1,
        },
{
    let ghost s = views(notes@);
    let mut i: usize = 0;
    while i < notes.len()
        invariant
            s == views(notes@),
            i <= notes@.len(),
            forall|j: int| 0 <= j < i ==> (#[trigger] s[j]).id != id@,
        decreases notes@.len() - i,
    {
        if notes[i].id().same_as(id) {
            proof {
                lemma_index_of_id(s, id@, i as int);
            }
            return Some(i);
        }
        i = i + 1;
    }
    assert(!contains_id(s, id@));
    None
}

/// Replaces the first note that has the same identifier as `note`; leaves
/// the list as it is when there is none.
pub fn replace_note(notes: &mut Vec<Note>, note: Note)
    ensures
        views(final(notes)@) == replaced(views(old(notes)@), note@),
{
    match find_index(notes, note.id()) {
        Some(i) => {
            let ghost before = notes@;
            let ghost nv = note@;
            notes.set(i, note);
            assert(views(notes@) =~= views(before).update(i as int, nv));
        },
        None => {},
    }
}

/// Removes every note with identifier `id`.
pub fn remove_note(notes: &mut Vec<Note>, id: &NoteId)
    ensures
        views(final(notes)@) == without_id(views(old(notes)@), id@),
{
    let ghost s = views(notes@);
    let mut kept: Vec<Note> = Vec::new();
    let mut i: usize = 0;
    while i < notes.len()
        invariant
            s == views(notes@),
            i <= notes@.len(),
            views(kept@) == without_id(s.subrange(0, i as int), id@),
        decreases notes@.len() - i,
    {
        let ghost prefix = s.subrange(0, i as int);
        let ghost before = views(kept@);
        assert(s.subrange(0, i + 1) =~= prefix.push(s[i as int]));
        proof {
            prefix.lemma_filter_push(s[i as int], other_id(id@));
        }
        if !notes[i].id().same_as(id) {
            let d = notes[i].duplicate();
            kept.push(d);
            assert(views(kept@) =~= before.push(s[i as int]));
        }
        i = i + 1;
    }
    assert(s.subrange(0, s.len() as int) =~= s);
    *notes = kept;
}

/// The notes that are not archived, in their order.
pub fn active_notes(notes: &Vec<Note>) -> (r: Vec<Note>)
    ensures
        views(r@) == active(views(notes@)),
{
    let ghost s = views(notes@);
    let mut kept: Vec<Note> = Vec::new();
    let mut i: usize = 0;
    while i < notes.len()
        invariant
            s == views(notes@),
            i <= notes@.len(),
            views(kept@) == active(s.subrange(0, i as int)),
        decreases notes@.len() - i,
    {
        let ghost prefix = s.subrange(0, i as int);
        let ghost before = views(kept@);
        assert(s.subrange(0, i + 1) =~= prefix.push(s[i as int]));
        proof {
            prefix.lemma_filter_push(s[i as int], unarchived());
        }
        if !notes[i].is_archived() {
            let d = notes[i].duplicate();
            kept.push(d);
            assert(views(kept@) =~= before.push(s[i as int]));
        }
        i = i + 1;
    }
    assert(s.subrange(0, s.len() as int) =~= s);
    kept
}

/// A copy of the list.
pub fn copy_notes(notes: &Vec<Note>) -> (r: Vec<Note>)
    ensures
        views(r@) == views(notes@),
{
    let ghost s = views(notes@);
    let mut out: Vec<Note> = Vec::new();
    let mut i: usize = 0;
    while i < notes.len()
        invariant
            s == views(notes@),
            i <= notes@.len(),
            views(out@) == s.subrange(0, i as int),
        decreases notes@.len() - i,
    {
        let ghost before = views(out@);
        let d = notes[i].duplicate();
        out.push(d);
        assert(views(out@) =~= before.push(s[i as int]));
        assert(views(out@) =~= s.subrange(0, i + 1));
        i = i + 1;
    }
    assert(s.subrange(0, s.len() as int) =~= s);
    out
}

} // verus!
