use crate::text::{
    byte_offset, byte_offset_of, insert_char, inserted, remove_char_before, removed_before,
    MAX_CHARS,
};
use crate::timer::Timer;
use crate::todo::{after_add, edited, toggled, TodoList, TodoModel};
use vstd::prelude::*;
use vstd::string::*;

verus! {

/// How long the start-up splash stays, in seconds.
pub const SPLASH_SECS: u64 = 2;

/// Which screen is shown.
#[derive(PartialEq, Eq, Structural, Debug, Clone, Copy)]
pub enum State {
    Startup,
    Display,
    Exit,
}

/// Which interaction the keys drive.
#[derive(PartialEq, Eq, Structural, Debug, Clone, Copy)]
pub enum InputMode {
    /// The list is shown but not focused.
    Visual,
    /// A new item's title is being typed.
    Input,
    /// The list is focused for navigation and actions.
    Select,
    /// The selected item's body is shown.
    Popup,
    /// The selected item's body is being typed.
    PopupInput,
}

/// A key press, by what it means to the application.
#[derive(PartialEq, Eq, Structural, Debug, Clone, Copy)]
pub enum Key {
    Char(char),
    Up,
    Down,
    Left,
    Right,
    Enter,
    Esc,
    Backspace,
    Other,
}

/// Text and cursor after an editing key, on buffer `buf` with cursor `cur`.
pub open spec fn text_after(buf: Seq<char>, cur: int, key: Key) -> (Seq<char>, int) {
    match key {
        Key::Char(c) => if buf.len() < MAX_CHARS {
            (inserted(buf, cur, c), cur + 1)
        } else {
            (buf, cur)
        },
        Key::Backspace => if cur > 0 {
            (removed_before(buf, cur), cur - 1)
        } else {
            (buf, cur)
        },
        Key::Left => (buf, if cur > 0 {
            cur - 1
        } else {
            0
        }),
        Key::Right => (buf, if cur < buf.len() {
            cur + 1
        } else {
            cur
        }),
        _ => (buf, cur),
    }
}

/// The selection after moving down through `len` items, wrapping at the end.
pub open spec fn next_index(sel: Option<usize>, len: nat) -> usize {
    match sel {
        Some(i) => if i + 1 >= len {
            0
        } else {
            (i + 1) as usize
        },
        None => 0,
    }
}

/// The selection after moving up through `len` items, wrapping at the start.
pub open spec fn previous_index(sel: Option<usize>, len: nat) -> usize {
    match sel {
        Some(i) => if i == 0 {
            (len - 1) as usize
        } else {
            (i - 1) as usize
        },
        None => 0,
    }
}

/// `idx` bounded to the last of `len` items (0 when there are none).
pub open spec fn clamped_index(idx: usize, len: nat) -> usize {
    if len == 0 {
        0
    } else if idx < len {
        idx
    } else {
        (len - 1) as usize
    }
}

#[derive(Debug)]
pub struct App {
    pub state: State,
    pub start_time: Timer,
    pub should_quit: bool,
    pub cursor_index: usize,
    pub input_mode: InputMode,
    pub input: String,
    pub todo_list: TodoList,
    /// The highlighted row, if any.
    pub selected: Option<usize>,
    /// The item that list actions address.
    pub todo_list_index: usize,
    pub show_todo_popup: bool,
    pub popup_input: String,
}

impl App {
    /// Whether a text buffer is focused.
    pub open spec fn is_editing(&self) -> bool {
        self.input_mode == InputMode::Input || self.input_mode == InputMode::PopupInput
    }

    /// The focused text buffer; empty when none is focused.
    pub open spec fn active_text(&self) -> Seq<char> {
        match self.input_mode {
            InputMode::Input => self.input@,
            InputMode::PopupInput => self.popup_input@,
            _ => Seq::empty(),
        }
    }

    pub open spec fn wf(&self) -> bool {
        &&& self.input@.len() <= MAX_CHARS
        &&& self.popup_input@.len() <= MAX_CHARS
        &&& self.cursor_index <= self.active_text().len()
        &&& (self.todo_list_index < self.todo_list@.len() || (self.todo_list@.len() == 0
            && self.todo_list_index == 0))
        &&& (self.selected is Some ==> self.selected == Some(self.todo_list_index))
    }

    /// `f` is `o` after an editing key: the focused buffer and the cursor
    /// move as `text_after` says, nothing else changes.
    pub open spec fn text_edit(o: App, f: App, key: Key) -> bool {
        if o.is_editing() {
            let (buf, cur) = text_after(o.active_text(), o.cursor_index as int, key);
            &&& f == (App {
                input: f.input,
                popup_input: f.popup_input,
                cursor_index: f.cursor_index,
                ..o
            })
            &&& f.cursor_index == cur
            &&& f.active_text() == buf
            &&& (o.input_mode == InputMode::Input ==> f.popup_input == o.popup_input)
            &&& (o.input_mode == InputMode::PopupInput ==> f.input == o.input)
        } else {
            f == o
        }
    }

    /// `f` is `o` with the selection moved to `i`.
    pub open spec fn selected_at(o: App, f: App, i: usize) -> bool {
        f == (App { selected: Some(i), todo_list_index: i, ..o })
    }

    /// `f` is `o` after the addressed item is removed and the selection is
    /// bounded to what is left.
    pub open spec fn deleted(o: App, f: App) -> bool {
        let items = if o.todo_list_index < o.todo_list@.len() {
            o.todo_list@.remove(o.todo_list_index as int)
        } else {
            o.todo_list@
        };
        let idx = clamped_index(o.todo_list_index, items.len());
        &&& f == (App {
            todo_list: f.todo_list,
            todo_list_index: idx,
            selected: if items.len() == 0 {
                None
            } else {
                match o.selected {
                    Some(_) => Some(idx),
                    None => None,
                }
            },
            ..o
        })
        &&& f.todo_list@ == items
    }

    /// `f` is `o` with only the store changed, to `items`.
    pub open spec fn store_set(o: App, f: App, items: Seq<TodoModel>) -> bool {
        f == (App { todo_list: f.todo_list, ..o }) && f.todo_list@ == items
    }

    /// The transition that a key makes from `o` to `f`; `press` tells a
    /// press from a release or repeat, which the text modes ignore.
    pub open spec fn key_step(o: App, f: App, key: Key, press: bool) -> bool {
        match o.input_mode {
            InputMode::Visual => match key {
                Key::Char('q') => f == (App { state: State::Exit, should_quit: true, ..o }),
                Key::Char('n') => f == (App { input_mode: InputMode::Input, cursor_index: 0, ..o }),
                Key::Up | Key::Down => if o.todo_list@.len() > 0 {
                    f == (App { input_mode: InputMode::Select, ..o })
                } else {
                    f == o
                },
                _ => f == o,
            },
            InputMode::Select => match key {
                Key::Up => if o.todo_list@.len() > 0 {
                    App::selected_at(o, f, previous_index(o.selected, o.todo_list@.len()))
                } else {
                    f == o
                },
                Key::Down => if o.todo_list@.len() > 0 {
                    App::selected_at(o, f, next_index(o.selected, o.todo_list@.len()))
                } else {
                    f == o
                },
                Key::Esc | Key::Char('q') => f == (App { input_mode: InputMode::Visual, ..o }),
                Key::Enter => if !o.show_todo_popup {
                    f == (App { show_todo_popup: true, input_mode: InputMode::Popup, ..o })
                } else {
                    f == o
                },
                Key::Char('d') => App::deleted(o, f),
                Key::Char('c') => App::store_set(
                    o,
                    f,
                    if o.todo_list_index < o.todo_list@.len() {
                        o.todo_list@.update(
                            o.todo_list_index as int,
                            toggled(o.todo_list@[o.todo_list_index as int]),
                        )
                    } else {
                        o.todo_list@
                    },
                ),
                _ => f == o,
            },
            InputMode::Input => if !press {
                f == o
            } else {
                match key {
                    Key::Enter => if o.input@.len() > 0 && !crate::todo::has_title(
                        o.todo_list@,
                        o.input@,
                    ) {
                        &&& f == (App {
                            todo_list: f.todo_list,
                            input: f.input,
                            cursor_index: 0,
                            input_mode: InputMode::Visual,
                            ..o
                        })
                        &&& f.input@.len() == 0
                        &&& f.todo_list@ == after_add(
                            o.todo_list@,
                            o.input@,
                            None,
                            f.todo_list@[0].creation_date,
                        )
                    } else {
                        f == o
                    },
                    Key::Esc => {
                        &&& f == (App {
                            input: f.input,
                            cursor_index: 0,
                            input_mode: InputMode::Visual,
                            ..o
                        })
                        &&& f.input@.len() == 0
                    },
                    _ => App::text_edit(o, f, key),
                }
            },
            InputMode::Popup => match key {
                Key::Esc => f == (App {
                    input_mode: InputMode::Select,
                    show_todo_popup: false,
                    ..o
                }),
                Key::Char('i') => f == (App { input_mode: InputMode::PopupInput, ..o }),
                _ => f == o,
            },
            InputMode::PopupInput => if !press {
                f == o
            } else {
                match key {
                    Key::Enter => if o.popup_input@.len() > 0 {
                        let i = o.todo_list_index as int;
                        &&& f == (App {
                            todo_list: f.todo_list,
                            popup_input: f.popup_input,
                            cursor_index: 0,
                            input_mode: InputMode::Select,
                            show_todo_popup: false,
                            ..o
                        })
                        &&& f.popup_input@.len() == 0
                        &&& f.todo_list@ == if i < o.todo_list@.len() {
                            o.todo_list@.update(
                                i,
                                edited(
                                    o.todo_list@[i],
                                    None,
                                    Some(o.popup_input@),
                                    f.todo_list@[i].last_edit_date,
                                ),
                            )
                        } else {
                            o.todo_list@
                        }
                    } else {
                        f == o
                    },
                    Key::Esc => {
                        &&& f == (App {
                            popup_input: f.popup_input,
                            cursor_index: 0,
                            input_mode: InputMode::Popup,
                            ..o
                        })
                        &&& f.popup_input@.len() == 0
                    },
                    _ => App::text_edit(o, f, key),
                }
            },
        }
    }

    pub fn new() -> (r: App)
        ensures
            r.wf(),
            r.state == State::Startup,
            r.start_time.seconds() == SPLASH_SECS,
            !r.should_quit,
            r.cursor_index == 0,
            r.input_mode == InputMode::Visual,
            r.input@.len() == 0,
            r.todo_list@.len() == 0,
            r.selected is None,
            r.todo_list_index == 0,
            !r.show_todo_popup,
            r.popup_input@.len() == 0,
    {
        App::with_list(TodoList::new())
    }

    /// A fresh application over an existing store.
    pub fn with_list(todo_list: TodoList) -> (r: App)
        ensures
            r.wf(),
            r.state == State::Startup,
            r.start_time.seconds() == SPLASH_SECS,
            !r.should_quit,
            r.cursor_index == 0,
            r.input_mode == InputMode::Visual,
            r.input@.len() == 0,
            r.todo_list@ == todo_list@,
            r.selected is None,
            r.todo_list_index == 0,
            !r.show_todo_popup,
            r.popup_input@.len() == 0,
    {
        App {
            state: State::Startup,
            start_time: Timer::new(SPLASH_SECS),
            should_quit: false,
            cursor_index: 0,
            input_mode: InputMode::Visual,
            input: String::new(),
            todo_list,
            selected: None,
            todo_list_index: 0,
            show_todo_popup: false,
            popup_input: String::new(),
        }
    }

    /// Leaves the splash screen once `elapsed` nanoseconds have reached its length.
    pub fn update_after(&mut self, elapsed: u128)
        ensures
            (old(self).state == State::Startup && elapsed >= old(
                self,
            ).start_time.duration_nanos()) ==> *final(self) == (App {
                state: State::Display,
                ..*old(self)
            }),
            !(old(self).state == State::Startup && elapsed >= old(
                self,
            ).start_time.duration_nanos()) ==> *final(self) == *old(self),
    {
        if self.state == State::Startup && self.start_time.remaining_after(elapsed) == 0 {
            self.state = State::Display;
        }
    }

    /// Leaves the splash screen once its time is up, by the clock.
    pub fn update(&mut self)
        ensures
            old(self).state == State::Startup ==> *final(self) == *old(self) || *final(self)
                == (App { state: State::Display, ..*old(self) }),
            old(self).state != State::Startup ==> *final(self) == *old(self),
    {
        let elapsed = self.start_time.elapsed();
        self.update_after(elapsed);
    }

    /// Length of the focused text buffer; 0 when none is focused.
    fn active_len(&self) -> (r: usize)
        requires
            self.wf(),
        ensures
            r == self.active_text().len(),
    {
        match self.input_mode {
            InputMode::Input => self.input.as_str().unicode_len(),
            InputMode::PopupInput => self.popup_input.as_str().unicode_len(),
            _ => 0,
        }
    }

    pub fn move_cursor_left(&mut self)
        requires
            old(self).wf(),
        ensures
            final(self).wf(),
            final(self).cursor_index <= final(self).active_text().len(),
            App::text_edit(*old(self), *final(self), Key::Left),
    {
        let cursor_moved_left = if self.cursor_index > 0 {
            self.cursor_index - 1
        } else {
            0
        };
        self.cursor_index = self.clamp_cursor(cursor_moved_left);
    }

    pub fn move_cursor_right(&mut self)
        requires
            old(self).wf(),
        ensures
            final(self).wf(),
            final(self).cursor_index <= final(self).active_text().len(),
            App::text_edit(*old(self), *final(self), Key::Right),
    {
        let cursor_moved_right = self.cursor_index + 1;
        self.cursor_index = self.clamp_cursor(cursor_moved_right);
    }

    /// Types `new_char` at the cursor of the focused buffer, unless it is full.
    pub fn enter_char(&mut self, new_char: char)
        requires
            old(self).wf(),
        ensures
            final(self).wf(),
            App::text_edit(*old(self), *final(self), Key::Char(new_char)),
    {
        if self.active_len() < MAX_CHARS {
            match self.input_mode {
                InputMode::Input => {
                    insert_char(&mut self.input, self.cursor_index, new_char);
                    self.cursor_index = self.cursor_index + 1;
                },
                InputMode::PopupInput => {
                    insert_char(&mut self.popup_input, self.cursor_index, new_char);
                    self.cursor_index = self.cursor_index + 1;
                },
                _ => {},
            }
        }
    }

    /// Byte offset of the cursor in the focused buffer; 0 when none is focused.
    pub fn byte_index(&self) -> (r: usize)
        requires
            self.wf(),
        ensures
            r == byte_offset_of(self.active_text(), self.cursor_index as int),
    {
        match self.input_mode {
            InputMode::Input => byte_offset(self.input.as_str(), self.cursor_index),
            InputMode::PopupInput => byte_offset(self.popup_input.as_str(), self.cursor_index),
            _ => {
                assert(Seq::<char>::empty().take(0) =~= Seq::<char>::empty());
                0
            },
        }
    }

    /// `new_cursor_pos` bounded to the focused buffer's length.
    pub fn clamp_cursor(&self, new_cursor_pos: usize) -> (r: usize)
        requires
            self.wf(),
        ensures
            r == if new_cursor_pos <= self.active_text().len() {
                new_cursor_pos as int
            } else {
                self.active_text().len() as int
            },
    {
        let n = self.active_len();
        if new_cursor_pos <= n {
            new_cursor_pos
        } else {
            n
        }
    }

    /// `idx` bounded to the last item of the store (0 when it is empty).
    pub fn clamp_todo_list_index(&self, idx: usize) -> (r: usize)
        ensures
            r == clamped_index(idx, self.todo_list@.len()),
    {
        let n = self.todo_list.len();
        if n == 0 {
            0
        } else if idx < n {
            idx
        } else {
            n - 1
        }
    }

    /// Deletes the character before the cursor of the focused buffer.
    pub fn delete_char(&mut self)
        requires
            old(self).wf(),
        ensures
            final(self).wf(),
            App::text_edit(*old(self), *final(self), Key::Backspace),
    {
        if self.cursor_index != 0 {
            let current_index = self.cursor_index;
            match self.input_mode {
                InputMode::Input => {
                    self.input = remove_char_before(self.input.as_str(), current_index);
                    self.cursor_index = current_index - 1;
                },
                InputMode::PopupInput => {
                    self.popup_input = remove_char_before(
                        self.popup_input.as_str(),
                        current_index,
                    );
                    self.cursor_index = current_index - 1;
                },
                _ => {},
            }
        }
    }

    pub fn reset_cursor(&mut self)
        ensures
            *final(self) == (App { cursor_index: 0, ..*old(self) }),
    {
        self.cursor_index = 0;
    }

    /// Adds the typed title to the store, with no body.
    pub fn submit_new_todo(&mut self)
        requires
            old(self).wf(),
        ensures
            App::store_set(
                *old(self),
                *final(self),
                after_add(
                    old(self).todo_list@,
                    old(self).input@,
                    None,
                    final(self).todo_list@[0].creation_date,
                ),
            ),
    {
        let title = self.input.clone();
        self.todo_list.add_todo(title, None);
    }

    /// Moves the selection down, wrapping to the first item; nothing on an
    /// empty store.
    pub fn next_todo(&mut self)
        requires
            old(self).wf(),
        ensures
            final(self).wf(),
            old(self).todo_list@.len() > 0 ==> App::selected_at(
                *old(self),
                *final(self),
                next_index(old(self).selected, old(self).todo_list@.len()),
            ),
            old(self).todo_list@.len() == 0 ==> *final(self) == *old(self),
    {
        let n = self.todo_list.len();
        if n == 0 {
            return;
        }
        let i = match self.selected {
            Some(i) => if i >= n - 1 {
                0
            } else {
                i + 1
            },
            None => 0,
        };
        self.selected = Some(i);
        self.todo_list_index = i;
    }

    /// Moves the selection up, wrapping to the last item; nothing on an
    /// empty store.
    pub fn previous_todo(&mut self)
        requires
            old(self).wf(),
        ensures
            final(self).wf(),
            old(self).todo_list@.len() > 0 ==> App::selected_at(
                *old(self),
                *final(self),
                previous_index(old(self).selected, old(self).todo_list@.len()),
            ),
            old(self).todo_list@.len() == 0 ==> *final(self) == *old(self),
    {
        let n = self.todo_list.len();
        if n == 0 {
            return;
        }
        let i = match self.selected {
            Some(i) => if i == 0 {
                n - 1
            } else {
                i - 1
            },
            None => 0,
        };
        self.selected = Some(i);
        self.todo_list_index = i;
    }
    /// Removes the addressed item and bounds the selection to what is left.
    pub fn delete_selected(&mut self)
        requires
            old(self).wf(),
        ensures
            final(self).wf(),
            App::deleted(*old(self), *final(self)),
    {
        let idx = self.todo_list_index;
        let _removed = self.todo_list.remove_todo(idx);
        let n = self.todo_list.len();
        let c = self.clamp_todo_list_index(idx);
        self.todo_list_index = c;
        self.selected = if n == 0 {
            None
        } else {
            match self.selected {
                Some(_) => Some(c),
                None => None,
            }
        };
    }

    /// Handles one key press. Returns true when the user asked to quit: the
    /// caller then saves the store and ends the session.
    pub fn handle_key(&mut self, key: Key, press: bool) -> (quit: bool)
        requires
            old(self).wf(),
        ensures
            final(self).wf(),
            App::key_step(*old(self), *final(self), key, press),
            quit == (old(self).input_mode == InputMode::Visual && key == Key::Char('q')),
    {
        match self.input_mode {
            InputMode::Visual => match key {
                Key::Char('q') => {
                    self.state = State::Exit;
                    self.should_quit = true;
                    return true;
                },
                Key::Char('n') => {
                    self.input_mode = InputMode::Input;
                    self.reset_cursor();
                },
                Key::Up | Key::Down => {
                    if !self.todo_list.is_empty() {
                        self.input_mode = InputMode::Select;
                    }
                },
                _ => {},
            },
            InputMode::Select => match key {
                Key::Up => self.previous_todo(),
                Key::Down => self.next_todo(),
                Key::Esc | Key::Char('q') => self.input_mode = InputMode::Visual,
                Key::Enter => {
                    if !self.show_todo_popup {
                        self.show_todo_popup = true;
                        self.input_mode = InputMode::Popup;
                    }
                },
                Key::Char('d') => self.delete_selected(),
                Key::Char('c') => {
                    let _found = self.todo_list.complete_todo(self.todo_list_index);
                },
                _ => {},
            },
            InputMode::Input => {
                if press {
                    match key {
                        Key::Enter => {
                            if !self.input.as_str().is_empty() && !self.todo_list.contains_title(
                                &self.input,
                            ) {
                                self.submit_new_todo();
                                self.input = String::new();
                                self.reset_cursor();
                                self.input_mode = InputMode::Visual;
                            }
                        },
                        Key::Char(to_insert) => self.enter_char(to_insert),
                        Key::Backspace => self.delete_char(),
                        Key::Left => self.move_cursor_left(),
                        Key::Right => self.move_cursor_right(),
                        Key::Esc => {
                            self.input_mode = InputMode::Visual;
                            self.input = String::new();
                            self.reset_cursor();
                        },
                        _ => {},
                    }
                }
            },
            InputMode::Popup => match key {
                Key::Esc => {
                    self.input_mode = InputMode::Select;
                    self.show_todo_popup = false;
                },
                Key::Char('i') => self.input_mode = InputMode::PopupInput,
                _ => {},
            },
            InputMode::PopupInput => {
                if press {
                    match key {
                        Key::Char(to_insert) => self.enter_char(to_insert),
                        Key::Enter => {
                            if !self.popup_input.as_str().is_empty() {
                                let body = self.popup_input.clone();
                                let _found = self.todo_list.update_todo(
                                    self.todo_list_index,
                                    None,
                                    Some(body),
                                );
                                self.popup_input = String::new();
                                self.reset_cursor();
                                self.input_mode = InputMode::Select;
                                self.show_todo_popup = false;
                            }
                        },
                        Key::Backspace => self.delete_char(),
                        Key::Left => self.move_cursor_left(),
                        Key::Right => self.move_cursor_right(),
                        Key::Esc => {
                            self.input_mode = InputMode::Popup;
                            self.popup_input = String::new();
                            self.reset_cursor();
                        },
                        _ => {},
                    }
                }
            },
        }
        false
    }
}

} // verus!
