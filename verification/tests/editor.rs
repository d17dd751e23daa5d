use rbridger::editor::{Editor, RangeFields, SaveOutcome};
use rbridger::number::Real;
use rbridger::transform::{CalcFn, Number};

fn number(x: f64) -> Number {
    Number { value: Real { bits: x.to_bits() }, text: x.to_string() }
}

fn entry(name: &str, func: &str) -> CalcFn {
    CalcFn {
        name: name.to_string(),
        func: func.to_string(),
        min: number(-40.0),
        max: number(40.5),
        default_value: number(0.0),
    }
}

/// What the number fields of the editor read as.
fn fields(editor: &Editor) -> RangeFields {
    let read = |s: &String| s.parse::<f64>().ok().map(number);
    RangeFields {
        min: read(&editor.buf_min),
        max: read(&editor.buf_max),
        default_value: read(&editor.buf_default),
    }
}

fn editor(names: &[&str]) -> Editor {
    let mut e = Editor::new();
    e.load_file(Ok(names.iter().map(|n| entry(n, "JawOpen")).collect()));
    e
}

fn names(e: &Editor) -> Vec<&str> {
    e.params.iter().map(|p| p.name.as_str()).collect()
}

#[test]
fn new_editor_is_empty() {
    let e = Editor::new();
    assert!(e.params.is_empty() && e.selected.is_none() && !e.dirty && e.status.is_empty());
}

#[test]
fn selecting_shows_the_entry() {
    let mut e = editor(&["A", "B"]);
    e.select(1);
    assert_eq!(e.selected, Some(1));
    assert_eq!(e.buf_name, "B");
    assert_eq!(e.buf_func, "JawOpen");
    assert_eq!(e.buf_min, "-40");
    assert_eq!(e.buf_max, "40.5");
    assert_eq!(e.buf_default, "0");
    assert_eq!(e.formula_ok, Some(true));
    assert!(!e.name_dup);
    e.select(2);
    assert_eq!(e.selected, Some(1));
}

#[test]
fn formulas_are_marked() {
    let mut e = editor(&["A"]);
    e.select(0);
    e.buf_func = " (1 ".to_string();
    e.validate_buffers();
    assert_eq!(e.formula_ok, Some(false));
    e.buf_func = "   ".to_string();
    e.validate_buffers();
    assert_eq!(e.formula_ok, None);
    e.judge(true);
    assert_eq!(e.formula_ok, None);
    e.buf_func = "x".to_string();
    e.judge(false);
    assert_eq!(e.formula_ok, Some(false));
}

#[test]
fn taken_names_are_marked() {
    let mut e = editor(&["A", "B"]);
    e.select(0);
    e.buf_name = " B ".to_string();
    e.validate_buffers();
    assert!(e.name_dup);
    e.buf_name = "A".to_string();
    e.validate_buffers();
    assert!(!e.name_dup);
}

#[test]
fn fields_are_taken_over() {
    let mut e = editor(&["A", "B"]);
    e.select(0);
    e.buf_name = " C ".to_string();
    e.buf_func = " HeadRotX ".to_string();
    e.buf_min = "1e1".to_string();
    e.buf_max = "no number".to_string();
    let range = fields(&e);
    e.apply_edit(&range);
    assert_eq!(names(&e), ["C", "B"]);
    assert_eq!(e.params[0].func, "HeadRotX");
    assert_eq!(e.params[0].min.text, "10");
    assert_eq!(f64::from_bits(e.params[0].max.value.bits), 40.5);
    assert!(e.dirty);
}

#[test]
fn an_empty_name_is_not_taken_over() {
    let mut e = editor(&["A"]);
    e.select(0);
    e.buf_name = "  ".to_string();
    let range = fields(&e);
    e.apply_edit(&range);
    assert_eq!(names(&e), ["A"]);
}

#[test]
fn nothing_is_taken_over_without_a_selection() {
    let mut e = editor(&["A"]);
    e.buf_name = "X".to_string();
    let range = fields(&e);
    e.apply_edit(&range);
    assert_eq!(names(&e), ["A"]);
    assert!(!e.dirty);
}

#[test]
fn untouched_fields_change_nothing() {
    let mut e = editor(&["A", "B"]);
    e.select(1);
    let range = fields(&e);
    e.apply_edit(&range);
    assert_eq!(names(&e), ["A", "B"]);
    assert_eq!(e.params[1].func, "JawOpen");
    assert_eq!(e.params[1].min.value, number(-40.0).value);
    e.apply_edit(&range);
    assert_eq!(names(&e), ["A", "B"]);
}

#[test]
fn adding_selects_the_new_entry() {
    let mut e = editor(&["A"]);
    let range = fields(&e);
    e.add_param(&range);
    assert_eq!(names(&e), ["A", "Param2"]);
    assert_eq!(e.selected, Some(1));
    assert_eq!(e.buf_func, "0");
    assert_eq!((e.buf_min.as_str(), e.buf_max.as_str(), e.buf_default.as_str()), ("-1", "1", "0"));
    assert_eq!(f64::from_bits(e.params[1].min.value.bits), -1.0);
    assert_eq!(f64::from_bits(e.params[1].max.value.bits), 1.0);
    assert_eq!(f64::from_bits(e.params[1].default_value.value.bits), 0.0);
    e.delete_selected();
    assert_eq!(names(&e), ["A"]);
    assert_eq!(e.selected, Some(0));
}

#[test]
fn deleting_selects_the_next_entry() {
    let mut e = editor(&["A", "B", "C"]);
    e.delete_selected();
    assert_eq!(names(&e), ["A", "B", "C"]);
    e.select(1);
    e.delete_selected();
    assert_eq!(names(&e), ["A", "C"]);
    assert_eq!(e.selected, Some(1));
    assert_eq!(e.buf_name, "C");
    e.delete_selected();
    assert_eq!(e.selected, Some(0));
    e.delete_selected();
    assert!(e.params.is_empty());
    assert_eq!(e.selected, None);
}

#[test]
fn entries_move() {
    let mut e = editor(&["A", "B", "C"]);
    e.select(1);
    assert!(e.can_move(true) && e.can_move(false));
    let range = fields(&e);
    e.move_selected(true, &range);
    assert_eq!(names(&e), ["B", "A", "C"]);
    assert_eq!(e.selected, Some(0));
    assert!(!e.can_move(true));
    e.move_selected(true, &range);
    assert_eq!(names(&e), ["B", "A", "C"]);
    e.move_selected(false, &range);
    assert_eq!(names(&e), ["A", "B", "C"]);
    assert_eq!(e.selected, Some(1));
    e.move_selected(false, &range);
    assert_eq!(names(&e), ["A", "C", "B"]);
    assert!(!e.can_move(false));
}

#[test]
fn clicking_a_row_takes_the_fields_over() {
    let mut e = editor(&["A", "B"]);
    e.select(0);
    e.buf_name = "Z".to_string();
    let range = fields(&e);
    e.click_row(0, &range);
    assert_eq!(names(&e), ["A", "B"]);
    e.click_row(1, &range);
    assert_eq!(names(&e), ["Z", "B"]);
    assert_eq!(e.selected, Some(1));
    assert_eq!(e.buf_name, "B");
}

#[test]
fn changing_a_field_marks_it() {
    let mut e = editor(&["A", "B"]);
    e.select(0);
    e.buf_name = "B".to_string();
    let range = fields(&e);
    e.change_field(&range);
    assert!(e.name_dup && e.dirty);
    assert_eq!(names(&e), ["B", "B"]);
}

#[test]
fn loading_tells_what_it_did() {
    let mut e = editor(&["A", "B"]);
    assert_eq!(e.status, "Loaded 2 params");
    assert!(!e.status_is_error() && !e.dirty);
    e.load_file(Err("gone".to_string()));
    assert_eq!(e.status, "Load error: gone");
    assert!(e.status_is_error());
    assert_eq!(names(&e), ["A", "B"]);
}

#[test]
fn template_is_not_saved_yet() {
    let mut e = Editor::new();
    e.load_template(Ok(vec![entry("A", "1")]));
    assert_eq!(e.status, "Template loaded (1 params) — save when ready");
    assert!(e.dirty);
    e.load_template(Err("bad".to_string()));
    assert_eq!(e.status, "Template error: bad");
    assert_eq!(names(&e), ["A"]);
}

#[test]
fn saving_tells_what_it_did() {
    let mut e = editor(&["A"]);
    e.dirty = true;
    e.finish_save(SaveOutcome::WriteFailed("full".to_string()));
    assert_eq!(e.status, "Save error: full");
    assert!(e.dirty);
    e.finish_save(SaveOutcome::SerializeFailed("odd".to_string()));
    assert_eq!(e.status, "Serialize error: odd");
    e.finish_save(SaveOutcome::Saved);
    assert_eq!(e.status, "Saved");
    assert!(!e.dirty && !e.status_is_error());
}

#[test]
fn what_is_saved_is_loaded() {
    let mut a = editor(&["A", "B", "C"]);
    a.select(1);
    a.buf_name = " Pending ".to_string();
    a.buf_max = "7".to_string();
    let range = fields(&a);
    let written = a.save_file(&range);
    a.finish_save(SaveOutcome::Saved);
    assert!(!a.dirty);
    let mut b = editor(&["Other"]);
    b.select(0);
    b.load_file(Ok(written));
    assert_eq!(names(&b), ["A", "Pending", "C"]);
    assert_eq!(names(&b), names(&a));
    assert_eq!(b.params[1].max.value, number(7.0).value);
    assert_eq!(b.selected, None);
    assert!(b.buf_name.is_empty() && b.buf_func.is_empty() && !b.dirty);
    assert_eq!(b.status, "Loaded 3 params");
}

#[test]
fn moving_down_without_such_an_entry_does_nothing() {
    let mut e = editor(&["A"]);
    e.selected = Some(5);
    let range = fields(&e);
    e.move_selected(false, &range);
    assert_eq!(names(&e), ["A"]);
    assert_eq!(e.selected, Some(5));
}

#[test]
fn what_was_taken_over_stays_as_it_is() {
    let mut e = editor(&["A", "B"]);
    e.select(0);
    e.buf_name = "  New name ".to_string();
    e.buf_func = "\tJawOpen * 2\n".to_string();
    e.buf_min = "-3".to_string();
    let range = fields(&e);
    e.apply_edit(&range);
    e.apply_edit(&range);
    assert_eq!(names(&e), ["New name", "B"]);
    e.select(0);
    assert_eq!(e.buf_name, "New name");
    assert_eq!(e.buf_func, "JawOpen * 2");
    let range = fields(&e);
    e.apply_edit(&range);
    assert_eq!(names(&e), ["New name", "B"]);
    assert_eq!(e.params[0].func, "JawOpen * 2");
    assert_eq!(f64::from_bits(e.params[0].min.value.bits), -3.0);
}
