use mt::lazy::{A, B};
use mt::tonality::note::Note;
use mt::tonality::{NoteNames, PitchClasses, Symbols};

#[test]
fn note_keeps_name() {
    let n = Note::new("C#".to_string());
    assert_eq!(n.name, "C#");
}

#[test]
fn name_and_class_lists() {
    let names = NoteNames { names: vec!["C", "D"] };
    let classes = PitchClasses { classes: vec![0u8, 2] };
    let _ = Symbols {};
    assert_eq!(names.names.len(), 2);
    assert_eq!(classes.classes[1], 2);
}

#[test]
fn lazy_b_built_on_access() {
    let b = B::new("x".to_string());
    assert_eq!(b.a, "x");
    let a = A::new();
    assert_eq!(a.b().a, "a");
    assert_eq!(a.b().a, "a");
}
