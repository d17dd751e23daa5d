//! The editor of the transform config.
use crate::formula::{is_formula, operator_tree};
use crate::number::{Real, ONE, SIGN};
use crate::text::{
    contains, contains_text, decimal, decimal_text, law_trim_is_idempotent, same_text, trim,
    trimmed,
};
use crate::transform::{CalcFn, Entry, Number};
use vstd::prelude::*;

verus! {

/// What the three number fields read as; nothing where a field holds no number.
#[derive(Debug)]
pub struct RangeFields {
    pub min: Option<Number>,
    pub max: Option<Number>,
    pub default_value: Option<Number>,
}

/// What came of writing the config to a file.
#[derive(Debug)]
pub enum SaveOutcome {
    Saved,
    WriteFailed(String),
    SerializeFailed(String),
}

/// The list of entries, and the fields in which the selected one is edited.
pub struct Editor {
    pub params: Vec<CalcFn>,
    pub selected: Option<usize>,
    pub buf_name: String,
    pub buf_func: String,
    pub buf_min: String,
    pub buf_max: String,
    pub buf_default: String,
    /// Whether the formula field holds a formula; nothing where it is empty.
    pub formula_ok: Option<bool>,
    /// Whether another entry has the name in the name field.
    pub name_dup: bool,
    /// Whether there are changes that have not been saved.
    pub dirty: bool,
    pub status: String,
}

/// The state of an editor.
pub struct Sheet {
    pub params: Seq<Entry>,
    pub selected: Option<usize>,
    pub buf_name: Seq<char>,
    pub buf_func: Seq<char>,
    pub buf_min: Seq<char>,
    pub buf_max: Seq<char>,
    pub buf_default: Seq<char>,
    pub formula_ok: Option<bool>,
    pub name_dup: bool,
    pub dirty: bool,
    pub status: Seq<char>,
}

pub open spec fn entries(params: Seq<CalcFn>) -> Seq<Entry> {
    params.map_values(|param: CalcFn| param@)
}

impl View for Editor {
    type V = Sheet;

    open spec fn view(&self) -> Sheet {
        Sheet {
            params: entries(self.params@),
            selected: self.selected,
            buf_name: self.buf_name@,
            buf_func: self.buf_func@,
            buf_min: self.buf_min@,
            buf_max: self.buf_max@,
            buf_default: self.buf_default@,
            formula_ok: self.formula_ok,
            name_dup: self.name_dup,
            dirty: self.dirty,
            status: self.status@,
        }
    }
}

/// The number that a field reads as, or the one before.
pub open spec fn number_or(field: Option<Number>, before: Number) -> Number {
    match field {
        Some(number) => number,
        None => before,
    }
}

impl Sheet {
    /// The selection is an entry.
    pub open spec fn wf(self) -> bool {
        self.selected matches Some(i) ==> i < self.params.len()
    }

    /// Is there another entry with the name in the name field?
    pub open spec fn has_duplicate(self) -> bool {
        exists|i: int|
            0 <= i < self.params.len() && self.selected != Some(i as usize)
                && #[trigger] self.params[i].name == trimmed(self.buf_name)
    }

    /// The sheet with the marks beside the fields, given whether the formula can be built.
    pub open spec fn judged(self, builds: bool) -> Sheet {
        Sheet {
            formula_ok: if trimmed(self.buf_func).len() == 0 {
                None
            } else {
                Some(builds)
            },
            name_dup: self.has_duplicate(),
            ..self
        }
    }

    pub open spec fn validated(self) -> Sheet {
        self.judged(operator_tree(trimmed(self.buf_func)) is Some)
    }

    /// Entry `i` in the fields.
    pub open spec fn showing(self, i: int) -> Sheet {
        let entry = self.params[i];
        Sheet {
            buf_name: entry.name,
            buf_func: entry.func,
            buf_min: entry.min.text@,
            buf_max: entry.max.text@,
            buf_default: entry.default_value.text@,
            selected: Some(i as usize),
            ..self
        }
    }

    pub open spec fn after_select(self, i: int) -> Sheet {
        if i >= self.params.len() {
            self
        } else {
            self.showing(i).validated()
        }
    }

    /// The fields as an entry, given the entry before: an empty name and numbers that cannot be
    /// read leave it as it was.
    pub open spec fn edited(self, range: RangeFields, before: Entry) -> Entry {
        Entry {
            name: if trimmed(self.buf_name).len() == 0 {
                before.name
            } else {
                trimmed(self.buf_name)
            },
            func: trimmed(self.buf_func),
            min: number_or(range.min, before.min),
            max: number_or(range.max, before.max),
            default_value: number_or(range.default_value, before.default_value),
        }
    }

    pub open spec fn after_apply(self, range: RangeFields) -> Sheet {
        match self.selected {
            Some(i) if i < self.params.len() => Sheet {
                params: self.params.update(i as int, self.edited(range, self.params[i as int])),
                dirty: true,
                ..self
            },
            _ => self,
        }
    }

    /// The sheet with the entries of a file.
    pub open spec fn after_load(self, params: Seq<Entry>) -> Sheet {
        Sheet {
            params,
            selected: None,
            buf_name: Seq::empty(),
            buf_func: Seq::empty(),
            dirty: false,
            status: "Loaded "@ + decimal(params.len()) + " params"@,
            ..self
        }
    }

    /// The sheet with the entries of the template.
    pub open spec fn after_template(self, params: Seq<Entry>) -> Sheet {
        Sheet {
            params,
            selected: None,
            dirty: true,
            status: "Template loaded ("@ + decimal(params.len()) + " params) — save when ready"@,
            ..self
        }
    }

    /// The sheet once something has failed, with what and why.
    pub open spec fn after_failure(self, what: Seq<char>, why: Seq<char>) -> Sheet {
        Sheet { status: what + why, ..self }
    }

    /// The sheet once a row has been clicked.
    pub open spec fn after_click(self, i: usize, range: RangeFields) -> Sheet {
        if self.selected == Some(i) {
            self
        } else {
            self.after_apply(range).after_select(i as int)
        }
    }

    /// Is `after` the sheet with one more entry?
    pub open spec fn adds(self, range: RangeFields, after: Sheet) -> bool {
        let applied = self.after_apply(range);
        let n = applied.params.len();
        &&& after.params.len() == n + 1
        &&& fresh_entry(after.params[n as int], n + 1)
        &&& after == (Sheet {
            params: applied.params.push(after.params[n as int]),
            dirty: true,
            ..applied
        }).after_select(n as int)
    }

    /// The sheet once its entries stand in a file.
    pub open spec fn after_saved(self) -> Sheet {
        Sheet { dirty: false, status: "Saved"@, ..self }
    }

    pub open spec fn after_delete(self) -> Sheet {
        match self.selected {
            None => self,
            Some(i) => {
                let rest = Sheet { params: self.params.remove(i as int), dirty: true, ..self };
                if rest.params.len() == 0 {
                    Sheet { selected: None, ..rest }
                } else if i < rest.params.len() {
                    rest.after_select(i as int)
                } else {
                    rest.after_select(rest.params.len() - 1)
                }
            },
        }
    }

    /// Can the selected entry move up, or down?
    pub open spec fn can_move(self, up: bool) -> bool {
        self.selected matches Some(i) && if up {
            i > 0
        } else {
            i + 1 < self.params.len()
        }
    }

    pub open spec fn after_move(self, up: bool, range: RangeFields) -> Sheet {
        if !self.can_move(up) {
            self
        } else {
            let i = self.selected->0 as int;
            let j = if up {
                i - 1
            } else {
                i + 1
            };
            let applied = self.after_apply(range);
            Sheet {
                params: applied.params.update(i, applied.params[j]).update(j, applied.params[i]),
                selected: Some(j as usize),
                dirty: true,
                ..applied
            }
        }
    }
}

/// The entry that is added as the `n`th: is this it?
pub open spec fn fresh_entry(entry: Entry, n: nat) -> bool {
    &&& entry.name == "Param"@ + decimal(n)
    &&& entry.func == "0"@
    &&& entry.min.value == (Real { bits: (SIGN + ONE) as u64 })
    &&& entry.min.text@ == "-1"@
    &&& entry.max.value == (Real { bits: ONE })
    &&& entry.max.text@ == "1"@
    &&& entry.default_value.value == (Real { bits: 0 })
    &&& entry.default_value.text@ == "0"@
}

impl Editor {
    pub open spec fn wf(self) -> bool {
        self@.wf()
    }

    /// An editor without entries.
    pub fn new() -> (editor: Editor)
        ensures
            editor.wf(),
            editor@ == (Sheet {
                params: Seq::empty(),
                selected: None,
                buf_name: Seq::empty(),
                buf_func: Seq::empty(),
                buf_min: Seq::empty(),
                buf_max: Seq::empty(),
                buf_default: Seq::empty(),
                formula_ok: None,
                name_dup: false,
                dirty: false,
                status: Seq::empty(),
            }),
    {
        let editor = Editor {
            params: Vec::new(),
            selected: None,
            buf_name: String::new(),
            buf_func: String::new(),
            buf_min: String::new(),
            buf_max: String::new(),
            buf_default: String::new(),
            formula_ok: None,
            name_dup: false,
            dirty: false,
            status: String::new(),
        };
        assert(editor@.params =~= Seq::empty());
        editor
    }

    /// Selects an entry and shows it in the fields; does nothing where there is no such entry.
    pub fn select(&mut self, idx: usize)
        ensures
            final(self)@ == old(self)@.after_select(idx as int),
            old(self).wf() ==> final(self).wf(),
    {
        if idx >= self.params.len() {
            return;
        }
        let entry: CalcFn = self.params[idx].clone();
        self.buf_name = entry.name;
        self.buf_func = entry.func;
        self.buf_min = entry.min.text;
        self.buf_max = entry.max.text;
        self.buf_default = entry.default_value.text;
        self.selected = Some(idx);
        self.validate_buffers();
    }

    /// Marks a formula that cannot be built and a name that is taken.
    pub fn validate_buffers(&mut self)
        ensures
            final(self)@ == old(self)@.validated(),
            old(self).wf() ==> final(self).wf(),
    {
        let builds: bool = is_formula(trim(self.buf_func.as_str()));
        self.judge(builds);
    }

    /// Marks the fields, given whether the formula can be built.
    pub fn judge(&mut self, builds: bool)
        ensures
            final(self)@ == old(self)@.judged(builds),
            old(self).wf() ==> final(self).wf(),
    {
        self.name_dup = self.is_duplicate();
        self.formula_ok =
        if trim(self.buf_func.as_str()).is_empty() {
            None
        } else {
            Some(builds)
        };
    }

    fn is_duplicate(&self) -> (yes: bool)
        ensures
            yes == self@.has_duplicate(),
    {
        let name: &str = trim(self.buf_name.as_str());
        let n: usize = self.params.len();
        let mut i: usize = 0;
        while i < n
            invariant
                i <= n,
                n == self.params@.len(),
                name@ == trimmed(self.buf_name@),
                forall|k: int|
                    0 <= k < i ==> self.selected == Some(k as usize)
                        || #[trigger] self@.params[k].name != name@,
            decreases n - i,
        {
            let chosen: bool = match self.selected {
                Some(s) => s == i,
                None => false,
            };
            if !chosen && same_text(self.params[i].name.as_str(), name) {
                assert(self@.params[i as int].name == name@);
                return true;
            }
            i = i + 1;
        }
        false
    }

    /// Takes the fields over into the selected entry.
    pub fn apply_edit(&mut self, range: &RangeFields)
        ensures
            final(self)@ == old(self)@.after_apply(*range),
            final(self).params@.len() == old(self).params@.len(),
            old(self).wf() ==> final(self).wf(),
    {
        let idx: usize = match self.selected {
            Some(idx) => idx,
            None => {
                return;
            },
        };
        if idx >= self.params.len() {
            return;
        }
        let before: CalcFn = self.params[idx].clone();
        let name: &str = trim(self.buf_name.as_str());
        let entry = CalcFn {
            name: if name.is_empty() {
                before.name
            } else {
                name.to_owned()
            },
            func: trim(self.buf_func.as_str()).to_owned(),
            min: pick(&range.min, before.min),
            max: pick(&range.max, before.max),
            default_value: pick(&range.default_value, before.default_value),
        };
        self.params.set(idx, entry);
        self.dirty = true;
        assert(self@.params =~= old(self)@.after_apply(*range).params);
    }

    /// Adds an entry at the end and selects it.
    pub fn add_param(&mut self, range: &RangeFields)
        requires
            old(self).params@.len() < usize::MAX,
        ensures
            old(self)@.adds(*range, final(self)@),
            final(self).wf(),
    {
        self.apply_edit(range);
        let ghost applied = self@;
        let idx: usize = self.params.len();
        let entry = CalcFn {
            name: "Param".to_owned().concat(decimal_text(idx as u64 + 1).as_str()),
            func: "0".to_owned(),
            min: Number { value: Real::one().negated(), text: "-1".to_owned() },
            max: Number { value: Real::one(), text: "1".to_owned() },
            default_value: Number { value: Real::zero(), text: "0".to_owned() },
        };
        self.params.push(entry);
        self.dirty = true;
        assert(self@.params =~= applied.params.push(entry@));
        self.select(idx);
        assert(self@.params[idx as int] == entry@);
    }

    /// Deletes the selected entry and selects the one that takes its place.
    pub fn delete_selected(&mut self)
        requires
            old(self).wf(),
        ensures
            final(self)@ == old(self)@.after_delete(),
            final(self).wf(),
    {
        let idx: usize = match self.selected {
            Some(idx) => idx,
            None => {
                return;
            },
        };
        let _ = self.params.remove(idx);
        self.dirty = true;
        assert(self@.params =~= old(self)@.params.remove(idx as int));
        let n: usize = self.params.len();
        if n == 0 {
            self.selected = None;
        } else if idx < n {
            self.select(idx);
        } else {
            self.select(n - 1);
        }
    }

    /// Moves the selected entry one place up or down.
    pub fn move_selected(&mut self, up: bool, range: &RangeFields)
        requires
            up ==> (old(self).selected matches Some(i) ==> i == 0 || i < old(self).params@.len()),
        ensures
            final(self)@ == old(self)@.after_move(up, *range),
            old(self).wf() ==> final(self).wf(),
    {
        let idx: usize = match self.selected {
            Some(idx) => idx,
            None => {
                return;
            },
        };
        let new_idx: usize = if up {
            if idx == 0 {
                return;
            }
            idx - 1
        } else {
            if idx >= self.params.len() || idx == self.params.len() - 1 {
                return;
            }
            idx + 1
        };
        self.apply_edit(range);
        let ghost applied = self@;
        let here: CalcFn = self.params[idx].clone();
        let there: CalcFn = self.params[new_idx].clone();
        self.params.set(idx, there);
        self.params.set(new_idx, here);
        self.selected = Some(new_idx);
        self.dirty = true;
        assert(self@.params =~= applied.params.update(
            idx as int,
            applied.params[new_idx as int],
        ).update(new_idx as int, applied.params[idx as int]));
    }

    /// Shows another entry, after the fields have been taken over; does nothing for the entry
    /// that is selected.
    pub fn click_row(&mut self, idx: usize, range: &RangeFields)
        ensures
            final(self)@ == old(self)@.after_click(idx, *range),
            old(self).wf() ==> final(self).wf(),
    {
        let chosen: bool = match self.selected {
            Some(s) => s == idx,
            None => false,
        };
        if !chosen {
            self.apply_edit(range);
            self.select(idx);
        }
    }

    /// Takes a change of a field into account.
    pub fn change_field(&mut self, range: &RangeFields)
        ensures
            final(self)@ == old(self)@.after_apply(*range).validated(),
            old(self).wf() ==> final(self).wf(),
    {
        self.apply_edit(range);
        self.validate_buffers();
    }

    /// Takes over the entries of a file, or tells why it could not be read.
    pub fn load_file(&mut self, read: Result<Vec<CalcFn>, String>)
        ensures
            final(self)@ == match read {
                Ok(params) => old(self)@.after_load(entries(params@)),
                Err(error) => old(self)@.after_failure("Load error: "@, error@),
            },
            read is Ok || old(self).wf() ==> final(self).wf(),
    {
        match read {
            Ok(params) => {
                self.params = params;
                self.selected = None;
                self.buf_name = String::new();
                self.buf_func = String::new();
                self.dirty = false;
                self.status =
                "Loaded ".to_owned().concat(
                    decimal_text(self.params.len() as u64).as_str(),
                ).concat(" params");
            },
            Err(error) => {
                self.status = "Load error: ".to_owned().concat(error.as_str());
            },
        }
    }

    /// Takes over the entries of the built-in template, or tells why it could not be read.
    pub fn load_template(&mut self, read: Result<Vec<CalcFn>, String>)
        ensures
            final(self)@ == match read {
                Ok(params) => old(self)@.after_template(entries(params@)),
                Err(error) => old(self)@.after_failure("Template error: "@, error@),
            },
            read is Ok || old(self).wf() ==> final(self).wf(),
    {
        match read {
            Ok(params) => {
                self.params = params;
                self.selected = None;
                self.dirty = true;
                self.status =
                "Template loaded (".to_owned().concat(
                    decimal_text(self.params.len() as u64).as_str(),
                ).concat(" params) — save when ready");
            },
            Err(error) => {
                self.status = "Template error: ".to_owned().concat(error.as_str());
            },
        }
    }

    /// Takes the fields over and gives the entries to write to a file.
    pub fn save_file(&mut self, range: &RangeFields) -> (written: Vec<CalcFn>)
        ensures
            final(self)@ == old(self)@.after_apply(*range),
            entries(written@) == old(self)@.after_apply(*range).params,
            old(self).wf() ==> final(self).wf(),
    {
        self.apply_edit(range);
        let mut written: Vec<CalcFn> = Vec::new();
        let n: usize = self.params.len();
        let mut i: usize = 0;
        while i < n
            invariant
                i <= n,
                n == self.params@.len(),
                written@ == self.params@.take(i as int),
                self@ == old(self)@.after_apply(*range),
            decreases n - i,
        {
            written.push(self.params[i].clone());
            i = i + 1;
            assert(written@ =~= self.params@.take(i as int));
        }
        assert(self.params@.take(n as int) =~= self.params@);
        written
    }

    /// Takes the outcome of writing the entries to a file into account.
    pub fn finish_save(&mut self, outcome: SaveOutcome)
        ensures
            final(self)@ == match outcome {
                SaveOutcome::Saved => old(self)@.after_saved(),
                SaveOutcome::WriteFailed(error) => old(self)@.after_failure(
                    "Save error: "@,
                    error@,
                ),
                SaveOutcome::SerializeFailed(error) => old(self)@.after_failure(
                    "Serialize error: "@,
                    error@,
                ),
            },
            old(self).wf() ==> final(self).wf(),
    {
        match outcome {
            SaveOutcome::Saved => {
                self.dirty = false;
                self.status = "Saved".to_owned();
            },
            SaveOutcome::WriteFailed(error) => {
                self.status = "Save error: ".to_owned().concat(error.as_str());
            },
            SaveOutcome::SerializeFailed(error) => {
                self.status = "Serialize error: ".to_owned().concat(error.as_str());
            },
        }
    }

    /// Can the selected entry move up, or down?
    pub fn can_move(&self, up: bool) -> (yes: bool)
        ensures
            yes == self@.can_move(up),
    {
        match self.selected {
            None => false,
            Some(i) => if up {
                i > 0
            } else {
                i < self.params.len() && i < self.params.len() - 1
            },
        }
    }

    /// Does the status tell of an error?
    pub fn status_is_error(&self) -> (yes: bool)
        ensures
            yes == (contains_text(self.status@, "error"@) || contains_text(
                self.status@,
                "Error"@,
            )),
    {
        contains(self.status.as_str(), "error") || contains(self.status.as_str(), "Error")
    }
}

fn pick(field: &Option<Number>, before: Number) -> (number: Number)
    ensures
        number == number_or(*field, before),
{
    match field {
        Some(number) => number.clone(),
        None => before,
    }
}

/// Taking the fields over a second time changes nothing.
pub proof fn law_apply_is_idempotent(sheet: Sheet, range: RangeFields)
    ensures
        sheet.after_apply(range).after_apply(range) == sheet.after_apply(range),
{
    let once = sheet.after_apply(range);
    assert(once.after_apply(range).params =~= once.params);
}

/// Taking over fields that nobody has changed leaves every entry as it was, where the name and
/// the formula of the entry have no white space around them and the name is not empty.
pub proof fn law_untouched_fields_change_nothing(sheet: Sheet, i: int)
    requires
        0 <= i < sheet.params.len(),
        i <= usize::MAX,
        trimmed(sheet.params[i].name) == sheet.params[i].name,
        sheet.params[i].name.len() > 0,
        trimmed(sheet.params[i].func) == sheet.params[i].func,
    ensures
        ({
            let entry = sheet.params[i];
            let shown = RangeFields {
                min: Some(entry.min),
                max: Some(entry.max),
                default_value: Some(entry.default_value),
            };
            let after = sheet.after_select(i).after_apply(shown);
            &&& after.params == sheet.params
            &&& after.selected == Some(i as usize)
            &&& after.dirty
        }),
{
    let entry = sheet.params[i];
    let shown = RangeFields {
        min: Some(entry.min),
        max: Some(entry.max),
        default_value: Some(entry.default_value),
    };
    assert(sheet.after_select(i).after_apply(shown).params =~= sheet.params);
}

/// What has been taken over from the fields has no white space around it, so that showing the
/// entry and taking it over again changes nothing, where its name is not empty.
pub proof fn law_edit_is_stable(sheet: Sheet, range: RangeFields)
    requires
        sheet.selected matches Some(i) && i < sheet.params.len(),
        trimmed(sheet.buf_name).len() > 0,
    ensures
        ({
            let applied = sheet.after_apply(range);
            let i = sheet.selected->0 as int;
            let entry = applied.params[i];
            let shown = RangeFields {
                min: Some(entry.min),
                max: Some(entry.max),
                default_value: Some(entry.default_value),
            };
            applied.after_select(i).after_apply(shown).params == applied.params
        }),
{
    law_trim_is_idempotent(sheet.buf_name);
    law_trim_is_idempotent(sheet.buf_func);
    law_untouched_fields_change_nothing(sheet.after_apply(range), sheet.selected->0 as int);
}

/// What is saved is what is loaded: an editor that loads the entries which another one has written
/// has the list of that one, in its order and with the pending edit taken over; it has no
/// selection and nothing to save, and neither has the other one anything left to save.
pub proof fn law_saved_is_loaded(
    saving: Sheet,
    range: RangeFields,
    written: Seq<Entry>,
    loading: Sheet,
)
    requires
        written == saving.after_apply(range).params,
    ensures
        ({
            let saved = saving.after_apply(range).after_saved();
            let loaded = loading.after_load(written);
            &&& loaded.params == saved.params
            &&& loaded.selected is None
            &&& loaded.buf_name.len() == 0
            &&& loaded.buf_func.len() == 0
            &&& !loaded.dirty
            &&& loaded.status == "Loaded "@ + decimal(saved.params.len()) + " params"@
            &&& !saved.dirty
            &&& saved.status == "Saved"@
            &&& loaded.wf()
        }),
{
}

/// Moving an entry up and then down, or down and then up, puts it back.
pub proof fn law_moves_undo_each_other(sheet: Sheet, up: bool, range: RangeFields)
    requires
        sheet.wf(),
        sheet.can_move(up),
        sheet.params.len() <= usize::MAX,
    ensures
        sheet.after_move(up, range).can_move(!up),
        sheet.after_move(up, range).after_move(!up, range).params == sheet.after_apply(
            range,
        ).params,
        sheet.after_move(up, range).after_move(!up, range).selected == sheet.selected,
{
    let back = sheet.after_move(up, range).after_move(!up, range);
    assert(back.params =~= sheet.after_apply(range).params);
}

/// Moving changes the order of two neighbours, and nothing else in the list.
pub proof fn law_move_swaps_neighbours(sheet: Sheet, up: bool, range: RangeFields, k: int)
    requires
        sheet.wf(),
        sheet.can_move(up),
        sheet.params.len() <= usize::MAX,
        0 <= k < sheet.params.len(),
    ensures
        ({
            let before = sheet.after_apply(range);
            let after = sheet.after_move(up, range);
            let i = sheet.selected->0 as int;
            let j = after.selected->0 as int;
            &&& after.params.len() == before.params.len()
            &&& after.params[k] == if k == i {
                before.params[j]
            } else if k == j {
                before.params[i]
            } else {
                before.params[k]
            }
        }),
{
}

/// Deleting takes out the selected entry and keeps the others in their order.
pub proof fn law_delete_keeps_the_others(sheet: Sheet, k: int)
    requires
        sheet.wf(),
        sheet.selected is Some,
        0 <= k < sheet.params.len() - 1,
    ensures
        sheet.after_delete().params.len() == sheet.params.len() - 1,
        sheet.after_delete().params[k] == sheet.params[if k < sheet.selected->0 {
            k
        } else {
            k + 1
        }],
{
}

/// Deleting an entry that has just been added gives back the list.
pub proof fn law_delete_undoes_add(sheet: Sheet, entry: Entry)
    requires
        sheet.params.len() < usize::MAX,
    ensures
        (Sheet { params: sheet.params.push(entry), dirty: true, ..sheet }).after_select(
            sheet.params.len() as int,
        ).after_delete().params == sheet.params,
{
    let added = (Sheet { params: sheet.params.push(entry), dirty: true, ..sheet }).after_select(
        sheet.params.len() as int,
    );
    assert(added.params.remove(sheet.params.len() as int) =~= sheet.params);
}

/// What is taken over is what the fields hold: each of the three numbers is the one that its field
/// reads as, whatever the entry had before, and stays where the field holds none; the formula and
/// a name that is not empty are those of their fields, trimmed. Nothing but the selected entry
/// changes.
pub proof fn law_edit_takes_the_fields_over(sheet: Sheet, range: RangeFields, i: usize, k: int)
    requires
        sheet.selected == Some(i),
        i < sheet.params.len(),
    ensures
        ({
            let after = sheet.after_apply(range);
            let entry = after.params[i as int];
            let before = sheet.params[i as int];
            &&& range.min matches Some(number) ==> entry.min == number
            &&& range.max matches Some(number) ==> entry.max == number
            &&& range.default_value matches Some(number) ==> entry.default_value == number
            &&& range.min is None ==> entry.min == before.min
            &&& range.max is None ==> entry.max == before.max
            &&& range.default_value is None ==> entry.default_value == before.default_value
            &&& trimmed(sheet.buf_name).len() > 0 ==> entry.name == trimmed(sheet.buf_name)
            &&& trimmed(sheet.buf_name).len() == 0 ==> entry.name == before.name
            &&& entry.func == trimmed(sheet.buf_func)
            &&& after.params.len() == sheet.params.len()
            &&& 0 <= k < sheet.params.len() && k != i ==> after.params[k] == sheet.params[k]
            &&& after.dirty
            &&& after.selected == sheet.selected
            &&& after.buf_name == sheet.buf_name && after.buf_func == sheet.buf_func
            &&& after.buf_min == sheet.buf_min && after.buf_max == sheet.buf_max
            &&& after.buf_default == sheet.buf_default
            &&& after.status == sheet.status
        }),
{
}

/// Of two edits the later one counts, number by number; where its field holds none, the earlier
/// one does.
pub proof fn law_last_edit_counts(sheet: Sheet, first: RangeFields, second: RangeFields, i: usize)
    requires
        sheet.selected == Some(i),
        i < sheet.params.len(),
    ensures
        ({
            let entry = sheet.after_apply(first).after_apply(second).params[i as int];
            &&& second.min is Some ==> Some(entry.min) == second.min
            &&& second.min is None && first.min is Some ==> Some(entry.min) == first.min
            &&& second.max is Some ==> Some(entry.max) == second.max
            &&& second.max is None && first.max is Some ==> Some(entry.max) == first.max
            &&& second.default_value is Some ==> Some(entry.default_value) == second.default_value
            &&& second.default_value is None && first.default_value is Some ==> Some(
                entry.default_value,
            ) == first.default_value
        }),
{
}

/// Without an entry to take them, the fields are taken over nowhere.
pub proof fn law_edit_needs_a_selection(sheet: Sheet, range: RangeFields)
    requires
        sheet.selected matches Some(i) ==> i >= sheet.params.len(),
    ensures
        sheet.after_apply(range) == sheet,
{
}

/// An entry that is selected stands in the fields, word for word, and no entry changes by it; what
/// is not there cannot be selected.
pub proof fn law_selection_shows_the_entry(sheet: Sheet, i: int)
    requires
        0 <= i <= usize::MAX,
    ensures
        ({
            let after = sheet.after_select(i);
            &&& after.params == sheet.params
            &&& after.dirty == sheet.dirty
            &&& after.status == sheet.status
            &&& i < sheet.params.len() ==> {
                &&& after.selected == Some(i as usize)
                &&& after.buf_name == sheet.params[i].name
                &&& after.buf_func == sheet.params[i].func
                &&& after.buf_min == sheet.params[i].min.text@
                &&& after.buf_max == sheet.params[i].max.text@
                &&& after.buf_default == sheet.params[i].default_value.text@
            }
            &&& i >= sheet.params.len() ==> after == sheet
        }),
{
}

/// The mark on the name tells whether another entry has it, and the mark on the formula whether it
/// can be built; an empty formula has no mark. The marks change nothing else.
pub proof fn law_marks_tell_what_is_wrong(sheet: Sheet, k: int)
    ensures
        ({
            let after = sheet.validated();
            &&& 0 <= k < sheet.params.len() && sheet.selected != Some(k as usize)
                && sheet.params[k].name == trimmed(sheet.buf_name) ==> after.name_dup
            &&& after.name_dup ==> exists|i: int|
                0 <= i < sheet.params.len() && sheet.selected != Some(i as usize)
                    && #[trigger] sheet.params[i].name == trimmed(sheet.buf_name)
            &&& trimmed(sheet.buf_func).len() == 0 ==> after.formula_ok is None
            &&& trimmed(sheet.buf_func).len() > 0 ==> after.formula_ok == Some(
                operator_tree(trimmed(sheet.buf_func)) is Some,
            )
            &&& after == (Sheet {
                formula_ok: after.formula_ok,
                name_dup: after.name_dup,
                ..sheet
            })
        }),
{
}

/// After a deletion the entry that has moved up is selected and shown, or the last one where there
/// is none; without a selection nothing is deleted.
pub proof fn law_deletion_selects_the_next(sheet: Sheet)
    requires
        sheet.wf(),
        sheet.params.len() <= usize::MAX,
    ensures
        sheet.selected is None ==> sheet.after_delete() == sheet,
        sheet.selected is Some && sheet.params.len() == 1 ==> sheet.after_delete().selected is None,
        sheet.selected is Some ==> sheet.after_delete().dirty,
        sheet.selected is Some && sheet.params.len() > 1 ==> {
            let i = sheet.selected->0;
            let after = sheet.after_delete();
            let next = if i + 1 < sheet.params.len() {
                sheet.params[i + 1]
            } else {
                sheet.params[i - 1]
            };
            &&& after.selected == Some(
                if i + 1 < sheet.params.len() {
                    i
                } else {
                    (i - 1) as usize
                },
            )
            &&& after.buf_name == next.name
            &&& after.buf_func == next.func
            &&& after.buf_min == next.min.text@
            &&& after.buf_max == next.max.text@
            &&& after.buf_default == next.default_value.text@
        },
{
}

/// Every entry can move up but the first, and down but the last; the selection goes with it, one
/// place, and what cannot move stays.
pub proof fn law_moves_go_one_place(sheet: Sheet, i: usize, range: RangeFields)
    requires
        sheet.selected == Some(i),
        i < sheet.params.len() <= usize::MAX,
    ensures
        sheet.can_move(true) <==> i > 0,
        sheet.can_move(false) <==> i + 1 < sheet.params.len(),
        i > 0 ==> sheet.after_move(true, range).selected == Some((i - 1) as usize),
        i + 1 < sheet.params.len() ==> sheet.after_move(false, range).selected == Some(
            (i + 1) as usize,
        ),
        i == 0 ==> sheet.after_move(true, range) == sheet,
        i + 1 == sheet.params.len() ==> sheet.after_move(false, range) == sheet,
{
}

/// An entry that is added is called after its place, always gives zero, and ranges from minus one
/// to one with zero as its default.
pub proof fn law_fresh_entry(entry: Entry, n: nat)
    requires
        fresh_entry(entry, n),
    ensures
        entry.name == "Param"@ + decimal(n),
        entry.func == "0"@,
        entry.min.value.denotes(-1) && entry.min.text@ == "-1"@,
        entry.max.value.denotes(1) && entry.max.text@ == "1"@,
        entry.default_value.value.denotes(0) && entry.default_value.text@ == "0"@,
{
    vstd::arithmetic::power2::lemma2_to64_rest();
}

/// What is loaded replaces the list and the selection, and leaves the number fields alone; the
/// status tells how many entries there are.
pub proof fn law_loading_replaces_the_list(sheet: Sheet, params: Seq<Entry>)
    ensures
        ({
            let after = sheet.after_load(params);
            &&& after.params == params
            &&& after.selected is None
            &&& after.status == "Loaded "@ + decimal(params.len()) + " params"@
            &&& after.buf_min == sheet.buf_min && after.buf_max == sheet.buf_max
            &&& after.buf_default == sheet.buf_default
            &&& after.formula_ok == sheet.formula_ok && after.name_dup == sheet.name_dup
        }),
{
}

/// The model of an editor says all that the editor holds.
pub proof fn law_sheet_says_all(editor: Editor, k: int)
    ensures
        editor@.params.len() == editor.params@.len(),
        0 <= k < editor.params@.len() ==> editor@.params[k] == editor.params@[k]@,
        editor@.selected == editor.selected,
        editor@.buf_name == editor.buf_name@ && editor@.buf_func == editor.buf_func@,
        editor@.buf_min == editor.buf_min@ && editor@.buf_max == editor.buf_max@,
        editor@.buf_default == editor.buf_default@,
        editor@.formula_ok == editor.formula_ok && editor@.name_dup == editor.name_dup,
        editor@.dirty == editor.dirty && editor@.status == editor.status@,
{
}

/// An entry that is added stands last, is selected and is shown; the others stay as they are, with
/// the fields taken over into the one that was selected, and deleting it gives them back.
pub proof fn law_added_entry_stands_last(sheet: Sheet, range: RangeFields, after: Sheet, k: int)
    requires
        sheet.adds(range, after),
        sheet.params.len() < usize::MAX,
    ensures
        after.params.len() == sheet.params.len() + 1,
        0 <= k < sheet.params.len() ==> after.params[k] == sheet.after_apply(range).params[k],
        after.selected == Some(sheet.params.len() as usize),
        after.buf_name == "Param"@ + decimal(after.params.len()),
        after.buf_func == "0"@,
        after.buf_min == "-1"@ && after.buf_max == "1"@ && after.buf_default == "0"@,
        after.dirty,
        after.params.last().min.value.denotes(-1),
        after.params.last().max.value.denotes(1),
        after.params.last().default_value.value.denotes(0),
        after.after_delete().params == sheet.after_apply(range).params,
{
    let n = sheet.params.len() as int;
    law_fresh_entry(after.params[n], (n + 1) as nat);
    assert(after.params.remove(n) =~= sheet.after_apply(range).params);
}

/// A click on another row takes the fields over and shows that entry; one on the selected row does
/// nothing.
pub proof fn law_click_shows_the_row(sheet: Sheet, i: usize, range: RangeFields)
    requires
        i < sheet.params.len(),
    ensures
        sheet.after_click(i, range).selected == Some(i),
        sheet.selected == Some(i) ==> sheet.after_click(i, range) == sheet,
        sheet.selected != Some(i) ==> sheet.after_click(i, range).params == sheet.after_apply(
            range,
        ).params && sheet.after_click(i, range).buf_name == sheet.params[i as int].name
            && sheet.after_click(i, range).buf_func == sheet.params[i as int].func,
{
}

/// The template replaces the list and is not saved yet; what fails tells why and changes nothing
/// else; what was saved needs no saving, and keeps its entries.
pub proof fn law_template_is_not_saved_yet(
    sheet: Sheet,
    params: Seq<Entry>,
    what: Seq<char>,
    why: Seq<char>,
)
    ensures
        sheet.after_template(params).params == params,
        sheet.after_template(params).dirty,
        sheet.after_template(params).selected is None,
        sheet.after_template(params).buf_name == sheet.buf_name,
        sheet.after_template(params).buf_func == sheet.buf_func,
        sheet.after_failure(what, why) == (Sheet { status: what + why, ..sheet }),
        sheet.after_saved() == (Sheet { dirty: false, status: "Saved"@, ..sheet }),
{
}

} // verus!
