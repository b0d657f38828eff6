//! The controller of the interactive mode as a state machine.
//!
//! A [`Term`] owns the item list and the state of the session. Each
//! [`Event`] that the caller hands to [`Term::step`] moves it to its next
//! state and yields the [`Action`] that the caller is to perform: draw
//! again, write the items to the store, put a code on the clipboard, or
//! leave. The controller reads no key, draws nothing and touches no file.

use crate::interactive::form::{Field, Form, FormView, ValidationError};
use crate::item::{views, Item, ItemView};
use vstd::prelude::*;

verus! {

/// The menu on the screen.
#[derive(Clone, Copy, Debug, PartialEq, Eq, Structural)]
pub enum Menu {
    /// No menu yet: the session has not started.
    Unstarted,
    Main,
    New,
    Edit,
}

/// How the last attempt to copy a code ended.
#[derive(Clone, Copy, Debug, PartialEq, Eq, Structural)]
pub enum Status {
    /// Nothing was copied since the selection last changed.
    Idle,
    Success,
    Fail,
}

/// A key of the terminal.
#[derive(Clone, Copy, Debug, PartialEq, Eq, Structural)]
pub enum Key {
    Char(char),
    Ctrl(char),
    Backspace,
    Esc,
    Up,
    Down,
    Left,
    Right,
    /// Any key that no menu listens to.
    Other,
}

/// What the input channel delivered within the time allowed.
#[derive(Clone, Copy, Debug, PartialEq, Eq, Structural)]
pub enum Event {
    Key(Key),
    /// No key was pressed.
    Timeout,
    /// The terminal could not be read.
    ReadFailed,
    /// The reader at the other end of the channel is gone.
    Disconnected,
}

/// An error that ends the session.
#[derive(Clone, Copy, Debug, PartialEq, Eq, Structural)]
pub enum Failure {
    ReadFailed,
    Disconnected,
}

/// What the caller is to do after a step.
#[derive(Clone, Debug, PartialEq)]
pub enum Action {
    /// Draw the menu again.
    Redraw,
    /// Write the item list to the store, then draw again.
    Persist,
    /// Put this code on the clipboard and tell the controller how that
    /// went, with [`Term::copy_done`].
    Copy(String),
    /// Write the item list to the store, give the terminal back and leave
    /// the process with this status.
    Quit(i32),
    /// Give the terminal back, report the failure and leave.
    Fail(Failure),
}

/// An action as plain values.
pub enum ActionView {
    Redraw,
    Persist,
    Copy(Seq<char>),
    Quit(int),
    Fail(Failure),
}

/// A stretch of the footer line.
#[derive(Clone, Debug, PartialEq)]
pub struct Segment {
    pub text: String,
    /// `Success` and `Fail` ask for the colour of that outcome.
    pub status: Status,
}

/// The controller of one interactive session.
pub struct Term {
    items: Vec<Item>,
    current_menu: Menu,
    selected_index: usize,
    copy_status: Status,
    alternate_footer: String,
    form: Form,
    pending_confirmation: bool,
}

/// The state of a session as plain values.
pub struct TermView {
    pub items: Seq<ItemView>,
    pub menu: Menu,
    /// The selected row of the main menu.
    pub selected: nat,
    pub copy_status: Status,
    /// The message shown in place of the key hints; empty for none.
    pub footer: Seq<char>,
    pub form: FormView,
    /// The user was asked whether to delete the selected item.
    pub pending: bool,
}

impl View for Action {
    type V = ActionView;

    open spec fn view(&self) -> ActionView {
        match *self {
            Action::Redraw => ActionView::Redraw,
            Action::Persist => ActionView::Persist,
            Action::Copy(code) => ActionView::Copy(code@),
            Action::Quit(status) => ActionView::Quit(status as int),
            Action::Fail(failure) => ActionView::Fail(failure),
        }
    }
}

impl View for Segment {
    type V = (Seq<char>, Status);

    open spec fn view(&self) -> (Seq<char>, Status) {
        (self.text@, self.status)
    }
}

impl Failure {
    /// The failure in words.
    pub open spec fn message_text(self) -> Seq<char> {
        match self {
            Failure::ReadFailed => "Could not read user input."@,
            Failure::Disconnected => "Could not connect to the input thread."@,
        }
    }

    /// The failure in words.
    pub fn message(&self) -> (r: String)
        ensures
            r@ == self.message_text(),
    {
        match self {
            Failure::ReadFailed => "Could not read user input.".to_string(),
            Failure::Disconnected => "Could not connect to the input thread.".to_string(),
        }
    }
}

/// The question that stands in the footer while a deletion waits for its
/// confirmation.
pub open spec fn delete_prompt() -> Seq<char> {
    "y - Delete      n - Cancel"@
}

/// The text shown in place of a code that could not be generated.
pub open spec fn code_placeholder() -> Seq<char> {
    "Error"@
}

/// The row of the main menu for `item` at `instant`: the label, a dash
/// and the code, or the placeholder where the item has no code.
pub open spec fn row_text(item: ItemView, instant: nat) -> Seq<char> {
    item.label + " - "@ + match item.code(instant) {
        Ok(code) => code,
        Err(_) => code_placeholder(),
    }
}

impl TermView {
    /// The state of a session that has not started, over `items`.
    pub open spec fn initial(items: Seq<ItemView>) -> TermView {
        TermView {
            items: items,
            menu: Menu::Unstarted,
            selected: 0,
            copy_status: Status::Idle,
            footer: Seq::empty(),
            form: FormView::empty(),
            pending: false,
        }
    }

    /// The states that a session can be in: the selection is a row of the
    /// list, or 0 where the list is empty; the Edit menu has an item to
    /// edit; and a deletion waits for its confirmation only in the main
    /// menu and only while there is an item to delete.
    pub open spec fn valid(self) -> bool {
        &&& self.items.len() == 0 ==> self.selected == 0
        &&& self.items.len() > 0 ==> self.selected < self.items.len()
        &&& self.menu == Menu::Edit ==> self.items.len() > 0
        &&& self.pending ==> self.menu == Menu::Main && self.items.len() > 0
    }

    /// Without what is transient: the copy status, the message in the
    /// footer and the pending confirmation.
    pub open spec fn calm(self) -> TermView {
        TermView { copy_status: Status::Idle, footer: Seq::empty(), pending: false, ..self }
    }

    /// After a switch to the menu `to`. What is transient goes. The form
    /// is emptied, but for Edit, where it takes the fields of the selected
    /// item. The selection stays on its row, but for the main menu, to
    /// which only the Edit menu hands its row back: from any other the
    /// selection goes to the first row.
    pub open spec fn switched(self, to: Menu) -> TermView {
        TermView {
            menu: to,
            form: if to == Menu::Edit {
                FormView::of_item(self.items[self.selected as int])
            } else {
                FormView::empty()
            },
            selected: if to == Menu::Main && self.menu != Menu::Edit {
                0
            } else {
                self.selected
            },
            ..self.calm()
        }
    }

    /// After Up in the main menu: the row above, or the last from the
    /// first.
    pub open spec fn moved_up(self) -> TermView {
        TermView {
            selected: if self.selected != 0 {
                (self.selected - 1) as nat
            } else if self.items.len() > 0 {
                (self.items.len() - 1) as nat
            } else {
                0
            },
            ..self.calm()
        }
    }

    /// After Down in the main menu: the row below, or the first from the
    /// last.
    pub open spec fn moved_down(self) -> TermView {
        TermView {
            selected: if self.selected + 1 < self.items.len() {
                self.selected + 1
            } else {
                0
            },
            ..self.calm()
        }
    }

    /// After the selected item is deleted. The selection stays where it
    /// is unless it stood on the last row, from which it moves up by one,
    /// as far as there is a row above.
    pub open spec fn removed(self) -> TermView {
        TermView {
            items: self.items.remove(self.selected as int),
            selected: if self.selected + 1 == self.items.len() && self.selected > 0 {
                (self.selected - 1) as nat
            } else {
                self.selected
            },
            ..self.calm()
        }
    }

    /// After the user asks to delete the selected item: the question is
    /// put, if there is an item.
    pub open spec fn asked(self) -> TermView {
        if self.items.len() > 0 {
            TermView { footer: delete_prompt(), pending: true, ..self }
        } else {
            self
        }
    }

    /// The code that `c` in the main menu copies at `instant`, if the
    /// selected item has one.
    pub open spec fn code_to_copy(self, instant: nat) -> Option<Seq<char>> {
        if self.items.len() > 0 {
            match self.items[self.selected as int].code(instant) {
                Ok(code) => Some(code),
                Err(_) => None,
            }
        } else {
            None
        }
    }

    /// After the user asks for a copy at `instant`: where there is no
    /// code to copy the attempt has failed already.
    pub open spec fn copy_asked(self, instant: nat) -> TermView {
        if self.code_to_copy(instant) is Some {
            self
        } else {
            TermView { copy_status: Status::Fail, ..self }
        }
    }

    /// After the clipboard was tried.
    pub open spec fn copied(self, succeeded: bool) -> TermView {
        TermView {
            copy_status: if succeeded {
                Status::Success
            } else {
                Status::Fail
            },
            ..self
        }
    }

    /// The item that the form describes in this menu, or the first rule
    /// that the form breaks. Only the New menu asks for a label that no
    /// item has yet.
    pub open spec fn form_result(self) -> Result<ItemView, ValidationError> {
        self.form.validated(self.items, self.menu == Menu::Edit)
    }

    /// After Enter on the last field. A form that breaks no rule yields
    /// its item, which the New menu adds at the end of the list and the
    /// Edit menu puts in the selected item's place; then the main menu
    /// returns. The first rule that the form breaks gives the message in
    /// the footer, and the menu stays.
    pub open spec fn submitted(self) -> TermView {
        match self.form_result() {
            Ok(item) => if self.menu == Menu::Edit {
                TermView {
                    items: self.items.update(self.selected as int, item),
                    ..self.switched(Menu::Main)
                }
            } else {
                TermView { items: self.items.push(item), ..self.switched(Menu::Main) }
            },
            Err(e) => TermView { footer: e.message_text(), ..self.calm() },
        }
    }

    /// With `form` in place of the form, and nothing transient.
    pub open spec fn edited(self, form: FormView) -> TermView {
        TermView { form: form, ..self.calm() }
    }

    /// After a key in the main menu.
    pub open spec fn after_main_key(self, key: Key, instant: nat) -> TermView {
        if self.pending {
            match key {
                Key::Char(c) => if c == 'y' {
                    self.removed()
                } else {
                    self.calm()
                },
                Key::Up => self.moved_up(),
                Key::Down => self.moved_down(),
                _ => self.calm(),
            }
        } else {
            match key {
                Key::Char(c) => if c == 'c' {
                    self.copy_asked(instant)
                } else if c == 'r' {
                    self.asked()
                } else if c == 'n' {
                    self.switched(Menu::New)
                } else if c == 'e' && self.items.len() > 0 {
                    self.switched(Menu::Edit)
                } else {
                    self
                },
                Key::Up => self.moved_up(),
                Key::Down => self.moved_down(),
                _ => self,
            }
        }
    }

    /// After a key in the New or the Edit menu.
    pub open spec fn after_form_key(self, key: Key) -> TermView {
        match key {
            Key::Char(c) => if c == '\n' {
                if self.form.field == Field::Period {
                    self.submitted()
                } else {
                    self.edited(self.form.focused(self.form.field.below()))
                }
            } else {
                self.edited(self.form.typed(c))
            },
            Key::Backspace => self.edited(self.form.erased()),
            Key::Esc => self.switched(Menu::Main),
            Key::Up => self.edited(self.form.focused(self.form.field.above())),
            Key::Down => self.edited(self.form.focused(self.form.field.below())),
            Key::Left => self.edited(self.form.moved_left()),
            Key::Right => self.edited(self.form.moved_right()),
            _ => self,
        }
    }

    /// The state after `event`, which arrived at `instant`.
    pub open spec fn after(self, event: Event, instant: nat) -> TermView {
        match event {
            Event::Key(key) => if key == Key::Ctrl('c') {
                self
            } else {
                match self.menu {
                    Menu::Main => self.after_main_key(key, instant),
                    Menu::New | Menu::Edit => self.after_form_key(key),
                    Menu::Unstarted => self,
                }
            },
            _ => self,
        }
    }

    /// What the caller is to do after `event`, which arrived at `instant`.
    pub open spec fn action(self, event: Event, instant: nat) -> ActionView {
        match event {
            Event::ReadFailed => ActionView::Fail(Failure::ReadFailed),
            Event::Disconnected => ActionView::Fail(Failure::Disconnected),
            Event::Timeout => ActionView::Redraw,
            Event::Key(key) => if key == Key::Ctrl('c') {
                ActionView::Quit(2)
            } else {
                match self.menu {
                    Menu::Main => if self.pending {
                        if key == Key::Char('y') {
                            ActionView::Persist
                        } else {
                            ActionView::Redraw
                        }
                    } else if key == Key::Char('q') {
                        ActionView::Quit(0)
                    } else if key == Key::Char('c') && self.code_to_copy(instant) is Some {
                        ActionView::Copy(self.code_to_copy(instant)->Some_0)
                    } else {
                        ActionView::Redraw
                    },
                    Menu::New | Menu::Edit => if key == Key::Char('\n') && self.form.field
                        == Field::Period && self.form_result() is Ok {
                        ActionView::Persist
                    } else {
                        ActionView::Redraw
                    },
                    Menu::Unstarted => ActionView::Redraw,
                }
            },
        }
    }

    /// The hint for Enter in the footer of the New and Edit menus.
    pub open spec fn enter_hint(self) -> Seq<char> {
        if self.form.field != Field::Period {
            "Enter - Next      "@
        } else if self.menu == Menu::New {
            "Enter - Add      "@
        } else {
            "Enter - Save      "@
        }
    }

    /// The footer line. A message stands alone. Without one the footer
    /// lists the keys of the menu; in the main menu the hint for copying
    /// carries the outcome of the last attempt.
    pub open spec fn footer_line(self) -> Seq<(Seq<char>, Status)> {
        if self.footer.len() > 0 {
            seq![(self.footer, Status::Idle)]
        } else if self.menu == Menu::New || self.menu == Menu::Edit {
            seq![(self.enter_hint(), Status::Idle), ("Esc - Back"@, Status::Idle)]
        } else {
            seq![
                ("n - New      "@, Status::Idle),
                ("e - Edit      "@, Status::Idle),
                ("c - Copy      "@, self.copy_status),
                ("r - Delete      "@, Status::Idle),
                ("q - Quit"@, Status::Idle),
            ]
        }
    }

    /// The column and the row of the terminal, counted from one, at which
    /// the cursor of the form stands: column 4 is the first of a field,
    /// the fields are three rows apart, and no column lies beyond 65535.
    pub open spec fn cursor_cell(self) -> (nat, nat) {
        (
            if 4 + self.form.cursor <= u16::MAX {
                4 + self.form.cursor
            } else {
                u16::MAX as nat
            },
            1 + 3 * (self.form.field.index() + 1),
        )
    }
}

impl View for Term {
    type V = TermView;

    closed spec fn view(&self) -> TermView {
        TermView {
            items: views(self.items@),
            menu: self.current_menu,
            selected: self.selected_index as nat,
            copy_status: self.copy_status,
            footer: self.alternate_footer@,
            form: self.form@,
            pending: self.pending_confirmation,
        }
    }
}

impl Term {
    /// The controller is in a state that a session can be in.
    pub open spec fn wf(&self) -> bool {
        self@.valid()
    }

    /// A controller over `items`, before the session starts.
    pub fn new(items: Vec<Item>) -> (term: Term)
        ensures
            term.wf(),
            term@ == TermView::initial(views(items@)),
    {
        Term {
            items,
            current_menu: Menu::Unstarted,
            selected_index: 0,
            copy_status: Status::Idle,
            alternate_footer: String::new(),
            form: Form::new(),
            pending_confirmation: false,
        }
    }

    /// Starts the session: the main menu comes up.
    pub fn start(&mut self)
        requires
            old(self).wf(),
        ensures
            final(self).wf(),
            final(self)@ == old(self)@.switched(Menu::Main),
    {
        self.switch_menu(Menu::Main);
    }

    /// The items, in the order of the main menu.
    pub fn items(&self) -> (items: &Vec<Item>)
        ensures
            views(items@) == self@.items,
    {
        &self.items
    }

    /// The menu on the screen.
    pub fn current_menu(&self) -> (menu: Menu)
        ensures
            menu == self@.menu,
    {
        self.current_menu
    }

    /// The selected row of the main menu.
    pub fn selected_index(&self) -> (row: usize)
        ensures
            row == self@.selected,
    {
        self.selected_index
    }

    /// How the last attempt to copy a code ended.
    pub fn copy_status(&self) -> (status: Status)
        ensures
            status == self@.copy_status,
    {
        self.copy_status
    }

    /// The message that stands in the footer; empty for none.
    pub fn alternate_footer(&self) -> (message: &String)
        ensures
            message@ == self@.footer,
    {
        &self.alternate_footer
    }

    /// The form of the New and Edit menus.
    pub fn form(&self) -> (form: &Form)
        ensures
            form@ == self@.form,
    {
        &self.form
    }

    /// Whether a deletion waits for its confirmation.
    pub fn pending_confirmation(&self) -> (pending: bool)
        ensures
            pending == self@.pending,
    {
        self.pending_confirmation
    }

    fn reset_changing_fields(&mut self)
        ensures
            final(self)@ == old(self)@.calm(),
    {
        self.copy_status = Status::Idle;
        self.alternate_footer = String::new();
        self.pending_confirmation = false;
    }

    fn switch_menu(&mut self, new_menu: Menu)
        requires
            old(self).wf(),
            new_menu == Menu::Edit ==> old(self)@.items.len() > 0,
        ensures
            final(self).wf(),
            final(self)@ == old(self)@.switched(new_menu),
    {
        self.reset_changing_fields();
        match new_menu {
            Menu::Edit => {
                self.form = Form::of_item(&self.items[self.selected_index]);
            },
            Menu::Main => {
                self.form = Form::new();
                if self.current_menu != Menu::Edit {
                    self.selected_index = 0;
                }
            },
            _ => {
                self.form = Form::new();
            },
        }
        self.current_menu = new_menu;
    }

    fn move_up(&mut self)
        requires
            old(self).wf(),
            old(self)@.menu == Menu::Main,
        ensures
            final(self).wf(),
            final(self)@ == old(self)@.moved_up(),
    {
        self.reset_changing_fields();
        if self.selected_index != 0 {
            self.selected_index = self.selected_index - 1;
        } else if self.items.len() > 0 {
            self.selected_index = self.items.len() - 1;
        }
    }

    fn move_down(&mut self)
        requires
            old(self).wf(),
            old(self)@.menu == Menu::Main,
        ensures
            final(self).wf(),
            final(self)@ == old(self)@.moved_down(),
    {
        self.reset_changing_fields();
        if self.items.len() > 0 && self.selected_index < self.items.len() - 1 {
            self.selected_index = self.selected_index + 1;
        } else {
            self.selected_index = 0;
        }
    }

    fn remove(&mut self)
        requires
            old(self).wf(),
            old(self)@.menu == Menu::Main,
            old(self)@.items.len() > 0,
        ensures
            final(self).wf(),
            final(self)@ == old(self)@.removed(),
    {
        let row = self.selected_index;
        let last = row == self.items.len() - 1;
        let ghost before = self.items@;
        self.items.remove(row);
        assert(views(self.items@) =~= views(before).remove(row as int));
        if last && row > 0 {
            self.selected_index = row - 1;
        }
        self.reset_changing_fields();
    }

    fn copy(&mut self, now: u64) -> (action: Action)
        requires
            old(self).wf(),
            old(self)@.menu == Menu::Main,
        ensures
            final(self).wf(),
            final(self)@ == old(self)@.copy_asked(now as nat),
            action@ == match old(self)@.code_to_copy(now as nat) {
                Some(code) => ActionView::Copy(code),
                None => ActionView::Redraw,
            },
    {
        if self.items.len() > 0 {
            match self.items[self.selected_index].get_code(now) {
                Ok(code) => {
                    return Action::Copy(code);
                },
                Err(_) => {},
            }
        }
        self.copy_status = Status::Fail;
        Action::Redraw
    }

    /// Tells the controller how putting the code on the clipboard went.
    pub fn copy_done(&mut self, succeeded: bool)
        requires
            old(self).wf(),
        ensures
            final(self).wf(),
            final(self)@ == old(self)@.copied(succeeded),
    {
        self.copy_status = if succeeded {
            Status::Success
        } else {
            Status::Fail
        };
    }

    fn new_menu_add_item(&mut self) -> (added: bool)
        requires
            old(self).wf(),
            old(self)@.menu == Menu::New,
        ensures
            final(self).wf(),
            final(self)@ == old(self)@.submitted(),
            added == old(self)@.form_result() is Ok,
    {
        match self.form.validate(&self.items, false) {
            Ok(item) => {
                let ghost before = self.items@;
                self.items.push(item);
                assert(views(self.items@) =~= views(before).push(item@));
                self.switch_menu(Menu::Main);
                true
            },
            Err(e) => {
                self.reset_changing_fields();
                self.alternate_footer = e.message();
                false
            },
        }
    }

    fn edit_menu_save_item(&mut self) -> (saved: bool)
        requires
            old(self).wf(),
            old(self)@.menu == Menu::Edit,
        ensures
            final(self).wf(),
            final(self)@ == old(self)@.submitted(),
            saved == old(self)@.form_result() is Ok,
    {
        match self.form.validate(&self.items, true) {
            Ok(item) => {
                let ghost before = self.items@;
                self.items.set(self.selected_index, item);
                assert(views(self.items@) =~= views(before).update(
                    self.selected_index as int,
                    item@,
                ));
                self.switch_menu(Menu::Main);
                true
            },
            Err(e) => {
                self.reset_changing_fields();
                self.alternate_footer = e.message();
                false
            },
        }
    }

    fn main_menu(&mut self, key: Key, now: u64) -> (action: Action)
        requires
            old(self).wf(),
            old(self)@.menu == Menu::Main,
            key != Key::Ctrl('c'),
        ensures
            final(self).wf(),
            final(self)@ == old(self)@.after_main_key(key, now as nat),
            action@ == old(self)@.action(Event::Key(key), now as nat),
    {
        match key {
            Key::Char(c) => {
                if !self.pending_confirmation {
                    if c == 'q' {
                        return Action::Quit(0);
                    } else if c == 'c' {
                        return self.copy(now);
                    } else if c == 'r' {
                        if self.items.len() > 0 {
                            self.alternate_footer = "y - Delete      n - Cancel".to_string();
                            self.pending_confirmation = true;
                        }
                    } else if c == 'n' {
                        self.switch_menu(Menu::New);
                    } else if c == 'e' {
                        if self.items.len() > 0 {
                            self.switch_menu(Menu::Edit);
                        }
                    }
                } else if c == 'y' {
                    self.remove();
                    return Action::Persist;
                } else {
                    self.reset_changing_fields();
                }
            },
            Key::Up => {
                self.move_up();
            },
            Key::Down => {
                self.move_down();
            },
            _ => {
                if self.pending_confirmation {
                    self.reset_changing_fields();
                }
            },
        }
        Action::Redraw
    }

    fn handle_edit_input(&mut self, key: Key) -> (action: Action)
        requires
            old(self).wf(),
            old(self)@.menu == Menu::New || old(self)@.menu == Menu::Edit,
            key != Key::Ctrl('c'),
        ensures
            final(self).wf(),
            final(self)@ == old(self)@.after_form_key(key),
            forall|instant: nat| action@ == old(self)@.action(Event::Key(key), instant),
    {
        match key {
            Key::Char(c) => {
                if c == '\n' {
                    if self.form.field != Field::Period {
                        self.reset_changing_fields();
                        self.form.focus(self.form.field.next());
                    } else {
                        let done = if self.current_menu == Menu::New {
                            self.new_menu_add_item()
                        } else {
                            self.edit_menu_save_item()
                        };
                        if done {
                            return Action::Persist;
                        }
                    }
                } else {
                    self.reset_changing_fields();
                    self.form.type_char(c);
                }
            },
            Key::Backspace => {
                self.reset_changing_fields();
                self.form.backspace();
            },
            Key::Esc => {
                self.switch_menu(Menu::Main);
            },
            Key::Up => {
                self.reset_changing_fields();
                self.form.focus(self.form.field.previous());
            },
            Key::Down => {
                self.reset_changing_fields();
                self.form.focus(self.form.field.next());
            },
            Key::Right => {
                self.reset_changing_fields();
                self.form.move_right();
            },
            Key::Left => {
                self.reset_changing_fields();
                self.form.move_left();
            },
            _ => {},
        }
        Action::Redraw
    }

    /// Takes one event, which arrived at `now` in seconds since the epoch,
    /// and says what the caller is to do.
    pub fn step(&mut self, event: Event, now: u64) -> (action: Action)
        requires
            old(self).wf(),
        ensures
            final(self).wf(),
            final(self)@ == old(self)@.after(event, now as nat),
            action@ == old(self)@.action(event, now as nat),
    {
        match event {
            Event::ReadFailed => Action::Fail(Failure::ReadFailed),
            Event::Disconnected => Action::Fail(Failure::Disconnected),
            Event::Timeout => Action::Redraw,
            Event::Key(key) => {
                if let Key::Ctrl(c) = key {
                    if c == 'c' {
                        return Action::Quit(2);
                    }
                }
                match self.current_menu {
                    Menu::Main => self.main_menu(key, now),
                    Menu::New | Menu::Edit => self.handle_edit_input(key),
                    Menu::Unstarted => Action::Redraw,
                }
            },
        }
    }

    /// The rows of the main menu at `now`, one for each item.
    pub fn main_menu_rows(&self, now: u64) -> (rows: Vec<String>)
        ensures
            rows@.len() == self@.items.len(),
            forall|i: int|
                0 <= i < rows@.len() ==> (#[trigger] rows@[i])@ == row_text(
                    self@.items[i],
                    now as nat,
                ),
    {
        let mut rows: Vec<String> = Vec::new();
        let mut i: usize = 0;
        while i < self.items.len()
            invariant
                i <= self.items.len(),
                rows@.len() == i,
                forall|k: int|
                    0 <= k < i ==> (#[trigger] rows@[k])@ == row_text(self.items@[k]@, now as nat),
            decreases self.items.len() - i,
        {
            let item = &self.items[i];
            let mut row = item.label.clone();
            row.append(" - ");
            match item.get_code(now) {
                Ok(code) => {
                    row.append(code.as_str());
                },
                Err(_) => {
                    row.append("Error");
                },
            }
            assert(row@ =~= row_text(item@, now as nat));
            rows.push(row);
            i = i + 1;
        }
        rows
    }

    /// The footer line of the menu on the screen.
    pub fn footer(&self) -> (line: Vec<Segment>)
        ensures
            line@.len() == self@.footer_line().len(),
            forall|i: int|
                0 <= i < line@.len() ==> (#[trigger] line@[i])@ == self@.footer_line()[i],
    {
        let mut line: Vec<Segment> = Vec::new();
        if self.alternate_footer.as_str().unicode_len() > 0 {
            line.push(Segment { text: self.alternate_footer.clone(), status: Status::Idle });
        } else if self.current_menu == Menu::New || self.current_menu == Menu::Edit {
            let hint = if self.form.field != Field::Period {
                "Enter - Next      "
            } else if self.current_menu == Menu::New {
                "Enter - Add      "
            } else {
                "Enter - Save      "
            };
            line.push(Segment { text: hint.to_string(), status: Status::Idle });
            line.push(Segment { text: "Esc - Back".to_string(), status: Status::Idle });
        } else {
            line.push(Segment { text: "n - New      ".to_string(), status: Status::Idle });
            line.push(Segment { text: "e - Edit      ".to_string(), status: Status::Idle });
            line.push(Segment { text: "c - Copy      ".to_string(), status: self.copy_status });
            line.push(Segment { text: "r - Delete      ".to_string(), status: Status::Idle });
            line.push(Segment { text: "q - Quit".to_string(), status: Status::Idle });
        }
        line
    }

    /// The cell of the terminal at which the cursor of the form stands.
    pub fn cursor_position(&self) -> (cell: (u16, u16))
        ensures
            (cell.0 as nat, cell.1 as nat) == self@.cursor_cell(),
    {
        let column: u16 = if self.form.cursor <= 0xFFFF - 4 {
            (self.form.cursor + 4) as u16
        } else {
            0xFFFF
        };
        let row: u16 = (1 + 3 * (self.form.field.row() + 1)) as u16;
        (column, row)
    }
}

} // verus!
