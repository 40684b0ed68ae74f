use vstd::prelude::*;

use crate::dream::{Dream, DreamView, Intensity, Style, INTENSITY_COUNT, STYLE_COUNT};
use crate::text::{is_blank, pop_char, push_char, text_is_blank};

verus! {

/// Number of entries shown side by side in the list.
pub const WINDOW_SIZE: usize = 7;

/// Largest value the frequency counter can take.
pub const MAX_FREQUENCY: u8 = 10;

/// The exclusive top-level interaction state.
#[derive(Clone, Copy, Debug, PartialEq, Eq, Structural)]
pub enum InputMode {
    Normal,
    Editing,
    ConfirmExport,
    ConfirmDelete,
    ConfirmQuit,
    ViewingDream,
}

/// The field of the entry wizard that currently takes input.
#[derive(Clone, Copy, Debug, PartialEq, Eq, Structural)]
pub enum InputField {
    Intensity,
    Frequency,
    Style,
    Experience,
    Inactive,
}

/// A key press, as the controller distinguishes them.
#[derive(Clone, Copy, Debug, PartialEq, Eq, Structural)]
pub enum Key {
    Char(char),
    Up,
    Down,
    Left,
    Right,
    /// Confirms the current field, or opens the selected entry.
    Enter,
    /// Inserts a line break into the experience text.
    Newline,
    Esc,
    Backspace,
    Other,
}

/// What the surrounding program has to do after a key was handled.
#[derive(Clone, Copy, Debug, PartialEq, Eq, Structural)]
pub enum Action {
    Nothing,
    /// Write the collection out, then report the outcome with `finish_save`.
    Save,
    /// End the program.
    Quit,
}

/// Raised when an entry is addressed by a position the collection does not have.
#[derive(Clone, Copy, Debug, PartialEq, Eq, Structural)]
pub struct IndexError {
    pub index: usize,
    pub len: usize,
}

/// The whole state of the journal: the collection, the list cursor, the wizard and the mode.
pub struct DreamApp {
    pub dreams: Vec<Dream>,
    pub input_mode: InputMode,
    pub input_field: InputField,
    pub input: String,
    pub current_dream: Dream,
    pub selected: usize,
    pub visible_start: usize,
    pub selection_index: usize,
    pub frequency_value: u8,
    pub editing_index: Option<usize>,
    pub unsaved_changes: bool,
    pub save_failed: bool,
}

/// The mathematical value of a `DreamApp`.
pub struct AppState {
    pub dreams: Seq<DreamView>,
    pub input_mode: InputMode,
    pub input_field: InputField,
    pub input: Seq<char>,
    pub current_dream: DreamView,
    pub selected: int,
    pub visible_start: int,
    pub selection_index: int,
    pub frequency_value: int,
    pub editing_index: Option<int>,
    pub unsaved_changes: bool,
    pub save_failed: bool,
}

pub open spec fn opt_int(o: Option<usize>) -> Option<int> {
    match o {
        Some(i) => Some(i as int),
        None => None,
    }
}

impl View for DreamApp {
    type V = AppState;

    open spec fn view(&self) -> AppState {
        AppState {
            dreams: self.dreams@.map_values(|d: Dream| d@),
            input_mode: self.input_mode,
            input_field: self.input_field,
            input: self.input@,
            current_dream: self.current_dream@,
            selected: self.selected as int,
            visible_start: self.visible_start as int,
            selection_index: self.selection_index as int,
            frequency_value: self.frequency_value as int,
            editing_index: opt_int(self.editing_index),
            unsaved_changes: self.unsaved_changes,
            save_failed: self.save_failed,
        }
    }
}

/// Number of options of a selection-list field.
pub open spec fn option_count(f: InputField) -> int {
    match f {
        InputField::Intensity => INTENSITY_COUNT as int,
        InputField::Style => STYLE_COUNT as int,
        _ => 0,
    }
}

/// The text an entry keeps: what was typed, or `N/A` when that is blank.
pub open spec fn experience_text(input: Seq<char>) -> Seq<char> {
    if is_blank(input) {
        "N/A"@
    } else {
        input
    }
}

impl AppState {
    /// The list cursor lies inside the collection and inside the visible window.
    pub open spec fn viewport_ok(self) -> bool {
        &&& 0 <= self.visible_start
        &&& 0 <= self.selected
        &&& self.dreams.len() == 0 ==> self.selected == 0 && self.visible_start == 0
        &&& self.dreams.len() > 0 ==> {
            &&& self.visible_start <= self.selected
            &&& self.selected < self.visible_start + WINDOW_SIZE
            &&& self.selected < self.dreams.len()
        }
    }

    pub open spec fn wf(self) -> bool {
        self.viewport_ok() && self.wizard_ok()
    }

    /// The option cursor fits the active field, and an entry under edit exists.
    pub open spec fn wizard_ok(self) -> bool {
        &&& 0 <= self.selection_index
        &&& option_count(self.input_field) > 0 ==> self.selection_index < option_count(
            self.input_field,
        )
        &&& self.editing_index matches Some(i) ==> self.input_mode == InputMode::Editing && 0
            <= i < self.dreams.len()
    }

    /// The entry under the cursor, if the collection has any.
    pub open spec fn selection(self) -> Option<int> {
        if self.dreams.len() > 0 {
            Some(self.selected)
        } else {
            None
        }
    }

    pub open spec fn moved_right(self) -> AppState {
        if self.dreams.len() > 0 && self.selected < self.dreams.len() - 1 {
            let sel = self.selected + 1;
            AppState {
                selected: sel,
                visible_start: if sel >= self.visible_start + WINDOW_SIZE {
                    self.visible_start + 1
                } else {
                    self.visible_start
                },
                ..self
            }
        } else {
            self
        }
    }

    pub open spec fn moved_left(self) -> AppState {
        if self.selected > 0 {
            let sel = self.selected - 1;
            AppState {
                selected: sel,
                visible_start: if sel < self.visible_start {
                    self.visible_start - 1
                } else {
                    self.visible_start
                },
                ..self
            }
        } else {
            self
        }
    }

    /// The entry at `i` taken out of the collection, which is then marked as changed.
    pub open spec fn removed(self, i: int) -> AppState {
        AppState { dreams: self.dreams.remove(i), unsaved_changes: true, ..self }
    }

    /// The cursor after an entry was taken out: it steps back only when it stood on what was
    /// the last entry, and the window follows it only when it now starts past the cursor.
    pub open spec fn nav_after_delete(self) -> AppState {
        let sel = if self.selected == self.dreams.len() && self.selected > 0 {
            self.selected - 1
        } else {
            self.selected
        };
        AppState {
            selected: sel,
            visible_start: if self.visible_start > 0 && self.visible_start > sel {
                self.visible_start - 1
            } else {
                self.visible_start
            },
            ..self
        }
    }

    /// An entry appended to the collection, which is then marked as changed.
    pub open spec fn inserted(self, d: DreamView) -> AppState {
        AppState { dreams: self.dreams.push(d), unsaved_changes: true, ..self }
    }

    /// The cursor on the last entry, and the window scrolled so that it ends there.
    pub open spec fn nav_after_insert(self) -> AppState {
        let len = self.dreams.len();
        AppState {
            selected: len - 1,
            visible_start: if len > WINDOW_SIZE {
                len - WINDOW_SIZE
            } else {
                0
            },
            ..self
        }
    }

    pub open spec fn replaced(self, i: int, d: DreamView) -> AppState {
        AppState { dreams: self.dreams.update(i, d), unsaved_changes: true, ..self }
    }
    /// A fresh wizard over a blank entry dated `date`.
    pub open spec fn add_started(self, date: Seq<char>) -> AppState {
        AppState {
            input_mode: InputMode::Editing,
            input_field: InputField::Intensity,
            selection_index: 0,
            frequency_value: 0,
            input: Seq::empty(),
            current_dream: Dream::spec_blank(date),
            editing_index: None,
            ..self
        }
    }

    /// A wizard seeded with a copy of the entry under the cursor, each field's cursor on
    /// that entry's value.
    pub open spec fn edit_started(self) -> AppState {
        let d = self.dreams[self.selected];
        AppState {
            input_mode: InputMode::Editing,
            input_field: InputField::Intensity,
            current_dream: d,
            editing_index: Some(self.selected),
            selection_index: d.intensity.spec_index(),
            frequency_value: d.frequency,
            input: d.experience,
            ..self
        }
    }

    /// The wizard abandoned: back to browsing, the collection untouched.
    pub open spec fn wizard_cancelled(self) -> AppState {
        AppState {
            input_mode: InputMode::Normal,
            input_field: InputField::Inactive,
            editing_index: None,
            ..self
        }
    }

    pub open spec fn option_up(self) -> AppState {
        if self.selection_index > 0 {
            AppState { selection_index: self.selection_index - 1, ..self }
        } else {
            self
        }
    }

    pub open spec fn option_down(self) -> AppState {
        if self.selection_index < option_count(self.input_field) - 1 {
            AppState { selection_index: self.selection_index + 1, ..self }
        } else {
            self
        }
    }

    pub open spec fn intensity_confirmed(self) -> AppState {
        AppState {
            current_dream: DreamView {
                intensity: Intensity::spec_from_index(self.selection_index),
                ..self.current_dream
            },
            input_field: InputField::Frequency,
            frequency_value: if self.editing_index is None {
                0
            } else {
                self.frequency_value
            },
            selection_index: 0,
            ..self
        }
    }

    pub open spec fn frequency_up(self) -> AppState {
        if self.frequency_value < MAX_FREQUENCY {
            AppState { frequency_value: self.frequency_value + 1, ..self }
        } else {
            self
        }
    }

    pub open spec fn frequency_down(self) -> AppState {
        if self.frequency_value > 0 {
            AppState { frequency_value: self.frequency_value - 1, ..self }
        } else {
            self
        }
    }

    pub open spec fn frequency_confirmed(self) -> AppState {
        AppState {
            current_dream: DreamView { frequency: self.frequency_value, ..self.current_dream },
            input_field: InputField::Style,
            selection_index: if self.editing_index is Some {
                self.current_dream.style.spec_index()
            } else {
                0
            },
            ..self
        }
    }

    pub open spec fn style_confirmed(self) -> AppState {
        AppState {
            current_dream: DreamView {
                style: Style::spec_from_index(self.selection_index),
                ..self.current_dream
            },
            input_field: InputField::Experience,
            input: if self.editing_index is None {
                Seq::empty()
            } else {
                self.input
            },
            selection_index: 0,
            ..self
        }
    }

    pub open spec fn typed(self, c: char) -> AppState {
        AppState { input: self.input.push(c), ..self }
    }

    pub open spec fn erased(self) -> AppState {
        if self.input.len() > 0 {
            AppState { input: self.input.drop_last(), ..self }
        } else {
            self
        }
    }

    /// The wizard finished: the pending entry takes the typed text, or `N/A` when that is
    /// blank, and overwrites the entry under edit or is appended as a new one.
    pub open spec fn committed(self) -> AppState {
        let d = DreamView { experience: experience_text(self.input), ..self.current_dream };
        let s = AppState {
            current_dream: d,
            input: Seq::empty(),
            input_mode: InputMode::Normal,
            input_field: InputField::Inactive,
            editing_index: None,
            ..self
        };
        match self.editing_index {
            Some(i) => s.replaced(i, d),
            None => s.inserted(d).nav_after_insert(),
        }
    }
    pub open spec fn with_mode(self, m: InputMode) -> AppState {
        AppState { input_mode: m, ..self }
    }

    /// A key in the browsing mode.
    pub open spec fn normal_step(self, key: Key, today: Seq<char>) -> AppState {
        let nonempty = self.dreams.len() > 0;
        if key == Key::Char('q') {
            self.with_mode(InputMode::ConfirmQuit)
        } else if key == Key::Char('a') {
            self.add_started(today)
        } else if key == Key::Char('d') && nonempty {
            self.with_mode(InputMode::ConfirmDelete)
        } else if key == Key::Char('s') {
            self.with_mode(InputMode::ConfirmExport)
        } else if key == Key::Char('e') && nonempty {
            self.edit_started()
        } else if key == Key::Right {
            self.moved_right()
        } else if key == Key::Left {
            self.moved_left()
        } else if key == Key::Enter && nonempty {
            self.with_mode(InputMode::ViewingDream)
        } else {
            self
        }
    }

    /// A key while the wizard is open.
    pub open spec fn wizard_step(self, key: Key) -> AppState {
        if key == Key::Esc {
            self.wizard_cancelled()
        } else {
            match self.input_field {
                InputField::Intensity | InputField::Style => {
                    if key == Key::Up {
                        self.option_up()
                    } else if key == Key::Down {
                        self.option_down()
                    } else if key == Key::Enter {
                        if self.input_field == InputField::Intensity {
                            self.intensity_confirmed()
                        } else {
                            self.style_confirmed()
                        }
                    } else {
                        self
                    }
                },
                InputField::Frequency => {
                    if key == Key::Up {
                        self.frequency_up()
                    } else if key == Key::Down {
                        self.frequency_down()
                    } else if key == Key::Enter {
                        self.frequency_confirmed()
                    } else {
                        self
                    }
                },
                InputField::Experience => {
                    match key {
                        Key::Enter => self.committed(),
                        Key::Char(c) => self.typed(c),
                        Key::Newline => self.typed('\n'),
                        Key::Backspace => self.erased(),
                        _ => self,
                    }
                },
                InputField::Inactive => self,
            }
        }
    }

    /// The outcome of one key in any mode: the next state, and what the surrounding program
    /// has to do.
    pub open spec fn step(self, key: Key, today: Seq<char>) -> (AppState, Action) {
        let back = key == Key::Char('n') || key == Key::Esc;
        match self.input_mode {
            InputMode::Normal => (self.normal_step(key, today), Action::Nothing),
            InputMode::Editing => (self.wizard_step(key), Action::Nothing),
            InputMode::ConfirmExport => {
                if key == Key::Char('y') {
                    (self.with_mode(InputMode::Normal), Action::Save)
                } else if back {
                    (self.with_mode(InputMode::Normal), Action::Nothing)
                } else {
                    (self, Action::Nothing)
                }
            },
            InputMode::ConfirmDelete => {
                if key == Key::Char('y') {
                    if self.dreams.len() > 0 {
                        (
                            self.removed(self.selected).nav_after_delete().with_mode(
                                InputMode::Normal,
                            ),
                            Action::Nothing,
                        )
                    } else {
                        (self.with_mode(InputMode::Normal), Action::Nothing)
                    }
                } else if back {
                    (self.with_mode(InputMode::Normal), Action::Nothing)
                } else {
                    (self, Action::Nothing)
                }
            },
            InputMode::ConfirmQuit => {
                if key == Key::Char('y') {
                    (self, Action::Quit)
                } else if back {
                    (self.with_mode(InputMode::Normal), Action::Nothing)
                } else {
                    (self, Action::Nothing)
                }
            },
            InputMode::ViewingDream => {
                if key == Key::Esc || key == Key::Enter || key == Key::Char('q') {
                    (self.with_mode(InputMode::Normal), Action::Nothing)
                } else {
                    (self, Action::Nothing)
                }
            },
        }
    }

    /// The outcome of a save reported back: a success clears the change mark, a failure
    /// keeps it and raises the failure notice.
    pub open spec fn save_finished(self, ok: bool) -> AppState {
        if ok {
            AppState { unsaved_changes: false, save_failed: false, ..self }
        } else {
            AppState { save_failed: true, ..self }
        }
    }
}

impl DreamApp {
    pub open spec fn wf(&self) -> bool {
        self@.wf()
    }

    /// A journal over an already loaded collection, in the normal browsing mode.
    pub fn new(dreams: Vec<Dream>) -> (r: DreamApp)
        ensures
            r.wf(),
            r@.dreams == dreams@.map_values(|d: Dream| d@),
            r@.input_mode == InputMode::Normal,
            r@.input_field == InputField::Inactive,
            r@.input == Seq::<char>::empty(),
            r@.current_dream == Dream::spec_blank("N/A"@),
            r@.selected == 0,
            r@.visible_start == 0,
            r@.selection_index == 0,
            r@.frequency_value == 0,
            r@.editing_index is None,
            !r@.unsaved_changes,
            !r@.save_failed,
    {
        let r = DreamApp {
            dreams,
            input_mode: InputMode::Normal,
            input_field: InputField::Inactive,
            input: String::new(),
            current_dream: Dream::blank("N/A"),
            selected: 0,
            visible_start: 0,
            selection_index: 0,
            frequency_value: 0,
            editing_index: None,
            unsaved_changes: false,
            save_failed: false,
        };
        assert(r@.input =~= Seq::<char>::empty());
        r
    }

    /// The position of the entry under the cursor; none when the collection is empty.
    pub fn selection(&self) -> (r: Option<usize>)
        requires
            self.wf(),
        ensures
            opt_int(r) == self@.selection(),
    {
        if self.dreams.len() > 0 {
            Some(self.selected)
        } else {
            None
        }
    }

    pub fn move_right(&mut self)
        requires
            old(self).wf(),
        ensures
            final(self)@ == old(self)@.moved_right(),
            final(self).wf(),
    {
        if self.dreams.len() > 0 && self.selected < self.dreams.len() - 1 {
            self.selected = self.selected + 1;
            if self.selected - self.visible_start >= WINDOW_SIZE {
                self.visible_start = self.visible_start + 1;
            }
        }
    }

    pub fn move_left(&mut self)
        requires
            old(self).wf(),
        ensures
            final(self)@ == old(self)@.moved_left(),
            final(self).wf(),
    {
        if self.selected > 0 {
            self.selected = self.selected - 1;
            if self.selected < self.visible_start {
                self.visible_start = self.visible_start - 1;
            }
        }
    }

    /// Appends an entry and marks the collection as changed.
    pub fn insert(&mut self, d: Dream)
        ensures
            final(self)@ == old(self)@.inserted(d@),
    {
        self.dreams.push(d);
        self.unsaved_changes = true;
        assert(self@.dreams =~= old(self)@.dreams.push(d@));
    }

    /// Overwrites the entry at `index` and marks the collection as changed.
    pub fn replace(&mut self, index: usize, d: Dream) -> (r: Result<(), IndexError>)
        ensures
            index < old(self)@.dreams.len() ==> r is Ok && final(self)@ == old(self)@.replaced(
                index as int,
                d@,
            ),
            index >= old(self)@.dreams.len() ==> r == Err::<(), IndexError>(
                IndexError { index, len: old(self).dreams.len() },
            ) && final(self)@ == old(self)@,
    {
        if index >= self.dreams.len() {
            return Err(IndexError { index, len: self.dreams.len() });
        }
        self.dreams.set(index, d);
        self.unsaved_changes = true;
        assert(self@.dreams =~= old(self)@.dreams.update(index as int, d@));
        Ok(())
    }

    /// Removes the entry at `index` and marks the collection as changed.
    pub fn delete(&mut self, index: usize) -> (r: Result<(), IndexError>)
        ensures
            index < old(self)@.dreams.len() ==> r is Ok && final(self)@ == old(self)@.removed(
                index as int,
            ),
            index >= old(self)@.dreams.len() ==> r == Err::<(), IndexError>(
                IndexError { index, len: old(self).dreams.len() },
            ) && final(self)@ == old(self)@,
    {
        if index >= self.dreams.len() {
            return Err(IndexError { index, len: self.dreams.len() });
        }
        self.dreams.remove(index);
        self.unsaved_changes = true;
        assert(self@.dreams =~= old(self)@.dreams.remove(index as int));
        Ok(())
    }

    /// Brings the cursor back into place after the entry under it was removed.
    pub fn on_delete(&mut self)
        requires
            old(self)@.wizard_ok(),
            old(self)@.visible_start <= old(self)@.selected,
            old(self)@.selected < old(self)@.visible_start + WINDOW_SIZE,
            old(self)@.selected <= old(self)@.dreams.len(),
        ensures
            final(self)@ == old(self)@.nav_after_delete(),
            final(self).wf(),
    {
        if self.selected == self.dreams.len() && self.selected > 0 {
            self.selected = self.selected - 1;
        }
        if self.visible_start > 0 && self.visible_start > self.selected {
            self.visible_start = self.visible_start - 1;
        }
    }

    /// Selects the last entry and scrolls the window so that it ends there.
    pub fn on_insert_at_end(&mut self)
        requires
            old(self)@.wizard_ok(),
            old(self)@.dreams.len() > 0,
        ensures
            final(self)@ == old(self)@.nav_after_insert(),
            final(self).wf(),
    {
        let len = self.dreams.len();
        self.selected = len - 1;
        if len > WINDOW_SIZE {
            self.visible_start = len - WINDOW_SIZE;
        } else {
            self.visible_start = 0;
        }
    }

    /// Opens the wizard on a blank entry dated `today`.
    pub fn start_add(&mut self, today: &str)
        requires
            old(self).wf(),
        ensures
            final(self)@ == old(self)@.add_started(today@),
            final(self).wf(),
    {
        self.input_mode = InputMode::Editing;
        self.input_field = InputField::Intensity;
        self.selection_index = 0;
        self.frequency_value = 0;
        self.input = String::new();
        self.current_dream = Dream::blank(today);
        self.editing_index = None;
        assert(self@.input =~= Seq::<char>::empty());
    }

    /// Opens the wizard on a copy of the entry under the cursor.
    pub fn start_edit(&mut self)
        requires
            old(self).wf(),
            old(self)@.dreams.len() > 0,
        ensures
            final(self)@ == old(self)@.edit_started(),
            final(self).wf(),
    {
        let d = self.dreams[self.selected].duplicate();
        self.input_mode = InputMode::Editing;
        self.input_field = InputField::Intensity;
        self.selection_index = d.intensity.index();
        self.frequency_value = d.frequency;
        self.input = d.experience.clone();
        self.current_dream = d;
        self.editing_index = Some(self.selected);
    }

    /// Abandons the wizard; the collection is left as it was.
    pub fn cancel_wizard(&mut self)
        requires
            old(self).wf(),
        ensures
            final(self)@ == old(self)@.wizard_cancelled(),
            final(self).wf(),
    {
        self.input_mode = InputMode::Normal;
        self.input_field = InputField::Inactive;
        self.editing_index = None;
    }

    /// Moves the option cursor one place up the list, stopping at the first option.
    pub fn option_up(&mut self)
        requires
            old(self).wf(),
        ensures
            final(self)@ == old(self)@.option_up(),
            final(self).wf(),
    {
        if self.selection_index > 0 {
            self.selection_index = self.selection_index - 1;
        }
    }

    /// Moves the option cursor one place down the list, stopping at the last option.
    pub fn option_down(&mut self)
        requires
            old(self).wf(),
        ensures
            final(self)@ == old(self)@.option_down(),
            final(self).wf(),
    {
        let n: usize = match self.input_field {
            InputField::Intensity => INTENSITY_COUNT,
            InputField::Style => STYLE_COUNT,
            _ => 0,
        };
        if n > 0 && self.selection_index < n - 1 {
            self.selection_index = self.selection_index + 1;
        }
    }

    /// Takes the intensity under the cursor and moves on to the frequency.
    pub fn confirm_intensity(&mut self)
        requires
            old(self).wf(),
            old(self)@.input_field == InputField::Intensity,
        ensures
            final(self)@ == old(self)@.intensity_confirmed(),
            final(self).wf(),
    {
        self.current_dream.intensity = Intensity::from_index(self.selection_index);
        self.input_field = InputField::Frequency;
        if self.editing_index.is_none() {
            self.frequency_value = 0;
        }
        self.selection_index = 0;
    }

    /// Raises the frequency by one, up to the maximum.
    pub fn frequency_up(&mut self)
        requires
            old(self).wf(),
        ensures
            final(self)@ == old(self)@.frequency_up(),
            final(self).wf(),
    {
        if self.frequency_value < MAX_FREQUENCY {
            self.frequency_value = self.frequency_value + 1;
        }
    }

    /// Lowers the frequency by one, down to zero.
    pub fn frequency_down(&mut self)
        requires
            old(self).wf(),
        ensures
            final(self)@ == old(self)@.frequency_down(),
            final(self).wf(),
    {
        if self.frequency_value > 0 {
            self.frequency_value = self.frequency_value - 1;
        }
    }

    /// Takes the frequency and moves on to the style.
    pub fn confirm_frequency(&mut self)
        requires
            old(self).wf(),
            old(self)@.input_field == InputField::Frequency,
        ensures
            final(self)@ == old(self)@.frequency_confirmed(),
            final(self).wf(),
    {
        self.current_dream.frequency = self.frequency_value;
        self.input_field = InputField::Style;
        if self.editing_index.is_some() {
            self.selection_index = self.current_dream.style.index();
        } else {
            self.selection_index = 0;
        }
    }

    /// Takes the style under the cursor and moves on to the experience text.
    pub fn confirm_style(&mut self)
        requires
            old(self).wf(),
            old(self)@.input_field == InputField::Style,
        ensures
            final(self)@ == old(self)@.style_confirmed(),
            final(self).wf(),
    {
        self.current_dream.style = Style::from_index(self.selection_index);
        self.input_field = InputField::Experience;
        if self.editing_index.is_none() {
            self.input = String::new();
            assert(self@.input =~= Seq::<char>::empty());
        }
        self.selection_index = 0;
    }

    /// Appends a character to the experience text.
    pub fn type_char(&mut self, c: char)
        requires
            old(self).wf(),
        ensures
            final(self)@ == old(self)@.typed(c),
            final(self).wf(),
    {
        push_char(&mut self.input, c);
    }

    /// Removes the last character of the experience text, if there is one.
    pub fn erase_char(&mut self)
        requires
            old(self).wf(),
        ensures
            final(self)@ == old(self)@.erased(),
            final(self).wf(),
    {
        let _ = pop_char(&mut self.input);
    }

    /// Finishes the wizard: stores the pending entry in the collection and returns to
    /// browsing.
    pub fn commit_experience(&mut self)
        requires
            old(self).wf(),
        ensures
            final(self)@ == old(self)@.committed(),
            final(self).wf(),
    {
        if text_is_blank(self.input.as_str()) {
            self.current_dream.experience = String::from_str("N/A");
        } else {
            self.current_dream.experience = self.input.clone();
        }
        self.input = String::new();
        assert(self@.input =~= Seq::<char>::empty());
        self.input_mode = InputMode::Normal;
        self.input_field = InputField::Inactive;
        let target = self.editing_index;
        self.editing_index = None;
        let d = self.current_dream.duplicate();
        match target {
            Some(i) => {
                let _ = self.replace(i, d);
            },
            None => {
                self.insert(d);
                self.on_insert_at_end();
            },
        }
    }

    /// Handles one key press. `today` is the date that a new entry gets, should this key
    /// open the wizard on one.
    pub fn handle_key(&mut self, key: Key, today: &str) -> (r: Action)
        requires
            old(self).wf(),
        ensures
            (final(self)@, r) == old(self)@.step(key, today@),
            final(self).wf(),
    {
        match self.input_mode {
            InputMode::Normal => {
                self.handle_normal_key(key, today);
                Action::Nothing
            },
            InputMode::Editing => {
                self.handle_wizard_key(key);
                Action::Nothing
            },
            InputMode::ConfirmExport => match key {
                Key::Char('y') => {
                    self.input_mode = InputMode::Normal;
                    Action::Save
                },
                Key::Char('n') | Key::Esc => {
                    self.input_mode = InputMode::Normal;
                    Action::Nothing
                },
                _ => Action::Nothing,
            },
            InputMode::ConfirmDelete => match key {
                Key::Char('y') => {
                    if self.dreams.len() > 0 {
                        let _ = self.delete(self.selected);
                        self.on_delete();
                    }
                    self.input_mode = InputMode::Normal;
                    Action::Nothing
                },
                Key::Char('n') | Key::Esc => {
                    self.input_mode = InputMode::Normal;
                    Action::Nothing
                },
                _ => Action::Nothing,
            },
            InputMode::ConfirmQuit => match key {
                Key::Char('y') => Action::Quit,
                Key::Char('n') | Key::Esc => {
                    self.input_mode = InputMode::Normal;
                    Action::Nothing
                },
                _ => Action::Nothing,
            },
            InputMode::ViewingDream => match key {
                Key::Esc | Key::Enter | Key::Char('q') => {
                    self.input_mode = InputMode::Normal;
                    Action::Nothing
                },
                _ => Action::Nothing,
            },
        }
    }

    fn handle_normal_key(&mut self, key: Key, today: &str)
        requires
            old(self).wf(),
            old(self)@.input_mode == InputMode::Normal,
        ensures
            final(self)@ == old(self)@.normal_step(key, today@),
            final(self).wf(),
    {
        let nonempty = self.dreams.len() > 0;
        match key {
            Key::Char('q') => self.input_mode = InputMode::ConfirmQuit,
            Key::Char('a') => self.start_add(today),
            Key::Char('d') => {
                if nonempty {
                    self.input_mode = InputMode::ConfirmDelete;
                }
            },
            Key::Char('s') => self.input_mode = InputMode::ConfirmExport,
            Key::Char('e') => {
                if nonempty {
                    self.start_edit();
                }
            },
            Key::Right => self.move_right(),
            Key::Left => self.move_left(),
            Key::Enter => {
                if nonempty {
                    self.input_mode = InputMode::ViewingDream;
                }
            },
            _ => {},
        }
    }

    fn handle_wizard_key(&mut self, key: Key)
        requires
            old(self).wf(),
            old(self)@.input_mode == InputMode::Editing,
        ensures
            final(self)@ == old(self)@.wizard_step(key),
            final(self).wf(),
    {
        if key == Key::Esc {
            self.cancel_wizard();
            return ;
        }
        match self.input_field {
            InputField::Intensity | InputField::Style => match key {
                Key::Up => self.option_up(),
                Key::Down => self.option_down(),
                Key::Enter => {
                    if self.input_field == InputField::Intensity {
                        self.confirm_intensity();
                    } else {
                        self.confirm_style();
                    }
                },
                _ => {},
            },
            InputField::Frequency => match key {
                Key::Up => self.frequency_up(),
                Key::Down => self.frequency_down(),
                Key::Enter => self.confirm_frequency(),
                _ => {},
            },
            InputField::Experience => match key {
                Key::Enter => self.commit_experience(),
                Key::Char(c) => self.type_char(c),
                Key::Newline => self.type_char('\n'),
                Key::Backspace => self.erase_char(),
                _ => {},
            },
            InputField::Inactive => {},
        }
    }

    /// Records the outcome of the save that `handle_key` asked for.
    pub fn finish_save(&mut self, ok: bool)
        requires
            old(self).wf(),
        ensures
            final(self)@ == old(self)@.save_finished(ok),
            final(self).wf(),
    {
        if ok {
            self.unsaved_changes = false;
            self.save_failed = false;
        } else {
            self.save_failed = true;
        }
    }
}

} // verus!
