use stickie::notes::{Intent, NoteModel};

fn model_with(notes: &[&str]) -> NoteModel {
    let mut m = NoteModel::new();
    for n in notes {
        m.set_input(String::from(*n));
        m.add_note();
    }
    assert_eq!(m.notes.len(), notes.len());
    m
}

#[test]
fn add_note_appends_trimmed_and_clears_input() {
    let mut m = NoteModel::new();
    m.set_input(String::from("  hello world  "));
    m.add_note();
    assert_eq!(m.notes, vec![String::from("hello world")]);
    assert_eq!(m.input, String::new());
    assert_eq!(m.editing, None);
}

#[test]
fn add_note_blank_is_a_no_op_and_keeps_input() {
    let mut m = model_with(&["A"]);
    m.set_input(String::from("   "));
    m.add_note();
    assert_eq!(m.notes, vec![String::from("A")]);
    assert_eq!(m.input, String::from("   "));
}

#[test]
fn add_note_keeps_duplicates() {
    let m = model_with(&["same", "same"]);
    assert_eq!(m.notes, vec![String::from("same"), String::from("same")]);
}

#[test]
fn delete_out_of_range_is_a_no_op() {
    let mut m = model_with(&["A", "B"]);
    m.delete(2);
    m.delete(17);
    assert_eq!(m.notes, vec![String::from("A"), String::from("B")]);
    assert_eq!(m.editing, None);
}

#[test]
fn delete_shifts_later_notes_down() {
    let mut m = model_with(&["A", "B", "C"]);
    m.delete(1);
    assert_eq!(m.notes, vec![String::from("A"), String::from("C")]);
}

#[test]
fn edit_save_round_trip() {
    let mut m = model_with(&["A"]);
    m.edit(0);
    assert_eq!(m.editing, Some((0, String::from("A"))));
    m.set_edit_input(String::from("B"));
    assert_eq!(m.editing, Some((0, String::from("B"))));
    m.save_edit();
    assert_eq!(m.notes, vec![String::from("B")]);
    assert_eq!(m.editing, None);
}

#[test]
fn save_edit_trims_the_draft() {
    let mut m = model_with(&["A"]);
    m.edit(0);
    m.set_edit_input(String::from("  B  "));
    m.save_edit();
    assert_eq!(m.notes, vec![String::from("B")]);
}

#[test]
fn save_edit_blank_draft_discards_but_closes() {
    let mut m = model_with(&["A"]);
    m.edit(0);
    m.set_edit_input(String::from("   "));
    m.save_edit();
    assert_eq!(m.notes, vec![String::from("A")]);
    assert_eq!(m.editing, None);
}

#[test]
fn cancel_discards_draft() {
    let mut m = model_with(&["A"]);
    m.edit(0);
    m.set_edit_input(String::from("zzz"));
    m.cancel_edit();
    assert_eq!(m.notes, vec![String::from("A")]);
    assert_eq!(m.editing, None);
}

#[test]
fn edit_out_of_range_is_a_no_op() {
    let mut m = model_with(&["A"]);
    m.edit(3);
    assert_eq!(m.editing, None);
}

#[test]
fn set_edit_input_without_open_slot_is_a_no_op() {
    let mut m = model_with(&["A"]);
    m.set_edit_input(String::from("B"));
    assert_eq!(m.editing, None);
    assert_eq!(m.notes, vec![String::from("A")]);
}

#[test]
fn delete_while_editing_clears_edit_state() {
    let mut m = model_with(&["A", "B"]);
    m.edit(0);
    m.delete(0);
    assert_eq!(m.notes, vec![String::from("B")]);
    assert_eq!(m.editing, None);
}

#[test]
fn delete_before_edited_note_remaps_the_index() {
    let mut m = model_with(&["A", "B"]);
    m.edit(1);
    m.delete(0);
    assert_eq!(m.notes, vec![String::from("B")]);
    assert_eq!(m.editing, Some((0, String::from("B"))));
}

#[test]
fn delete_after_edited_note_keeps_the_index() {
    let mut m = model_with(&["A", "B"]);
    m.edit(0);
    m.delete(1);
    assert_eq!(m.notes, vec![String::from("A")]);
    assert_eq!(m.editing, Some((0, String::from("A"))));
}

#[test]
fn reorder_applies_the_permutation() {
    let mut m = model_with(&["A", "B", "C"]);
    m.reorder(&vec![2, 0, 1]);
    assert_eq!(
        m.notes,
        vec![String::from("C"), String::from("A"), String::from("B")]
    );
}

#[test]
fn reorder_preserves_the_multiset() {
    let mut m = model_with(&["A", "B", "B", "D"]);
    m.reorder(&vec![3, 2, 1, 0]);
    let mut sorted = m.notes.clone();
    sorted.sort();
    assert_eq!(
        sorted,
        vec![
            String::from("A"),
            String::from("B"),
            String::from("B"),
            String::from("D")
        ]
    );
}

#[test]
fn reorder_with_wrong_length_is_ignored() {
    let mut m = model_with(&["A", "B"]);
    m.reorder(&vec![0]);
    assert_eq!(m.notes, vec![String::from("A"), String::from("B")]);
}

#[test]
fn reorder_with_duplicate_index_is_ignored() {
    let mut m = model_with(&["A", "B", "C"]);
    m.reorder(&vec![0, 0, 1]);
    assert_eq!(
        m.notes,
        vec![String::from("A"), String::from("B"), String::from("C")]
    );
}

#[test]
fn reorder_with_out_of_range_index_is_ignored() {
    let mut m = model_with(&["A", "B", "C"]);
    m.reorder(&vec![0, 1, 3]);
    assert_eq!(
        m.notes,
        vec![String::from("A"), String::from("B"), String::from("C")]
    );
}

#[test]
fn reorder_moves_the_edit_slot_with_its_note() {
    let mut m = model_with(&["A", "B", "C"]);
    m.edit(0);
    m.reorder(&vec![2, 0, 1]);
    assert_eq!(m.editing, Some((1, String::from("A"))));
    assert_eq!(m.notes[1], String::from("A"));
}

#[test]
fn apply_dispatches_each_intent() {
    let mut m = NoteModel::new();
    m.apply(Intent::SetInput(String::from(" one ")));
    m.apply(Intent::AddNote);
    m.apply(Intent::SetInput(String::from("two")));
    m.apply(Intent::AddNote);
    assert_eq!(m.notes, vec![String::from("one"), String::from("two")]);
    m.apply(Intent::Edit(1));
    m.apply(Intent::SetEditInput(String::from("TWO")));
    m.apply(Intent::SaveEdit);
    assert_eq!(m.notes, vec![String::from("one"), String::from("TWO")]);
    m.apply(Intent::Reorder(vec![1, 0]));
    assert_eq!(m.notes, vec![String::from("TWO"), String::from("one")]);
    m.apply(Intent::Edit(0));
    m.apply(Intent::CancelEdit);
    assert_eq!(m.editing, None);
    m.apply(Intent::Delete(0));
    assert_eq!(m.notes, vec![String::from("one")]);
}
