use otpc::interactive::form::Field;
use otpc::interactive::term::{Action, Event, Failure, Key, Menu, Segment, Status, Term};
use otpc::{Digits, Item};

fn item(label: &str) -> Item {
    Item {
        label: String::from(label),
        secret: String::from("GEZDGNBVGY3TQOJQ"),
        digits: Digits::Six,
        split_time: 30,
    }
}

fn started(labels: &[&str]) -> Term {
    let mut term = Term::new(labels.iter().map(|l| item(l)).collect());
    term.start();
    term
}

fn press(term: &mut Term, key: Key) -> Action {
    term.step(Event::Key(key), 59)
}

fn type_text(term: &mut Term, text: &str) {
    for c in text.chars() {
        assert_eq!(press(term, Key::Char(c)), Action::Redraw);
    }
}

fn labels(term: &Term) -> Vec<String> {
    term.items().iter().map(|i| i.label.clone()).collect()
}

fn plain(text: &str) -> Segment {
    Segment { text: String::from(text), status: Status::Idle }
}

#[test]
fn a_new_controller_waits_for_its_start() {
    let mut term = Term::new(vec![item("a")]);
    assert_eq!(term.current_menu(), Menu::Unstarted);
    assert_eq!(term.selected_index(), 0);
    assert_eq!(term.copy_status(), Status::Idle);
    assert_eq!(term.alternate_footer(), "");
    assert!(!term.pending_confirmation());
    assert_eq!(press(&mut term, Key::Char('n')), Action::Redraw);
    assert_eq!(term.current_menu(), Menu::Unstarted);
    term.start();
    assert_eq!(term.current_menu(), Menu::Main);
}

#[test]
fn selection_wraps_round_the_list() {
    let mut term = started(&["a", "b", "c"]);
    assert_eq!(term.selected_index(), 0);
    press(&mut term, Key::Up);
    assert_eq!(term.selected_index(), 2);
    press(&mut term, Key::Down);
    assert_eq!(term.selected_index(), 0);
    press(&mut term, Key::Down);
    assert_eq!(term.selected_index(), 1);
    press(&mut term, Key::Down);
    assert_eq!(term.selected_index(), 2);
    press(&mut term, Key::Up);
    assert_eq!(term.selected_index(), 1);
}

#[test]
fn a_single_row_keeps_the_selection() {
    let mut term = started(&["a"]);
    press(&mut term, Key::Up);
    assert_eq!(term.selected_index(), 0);
    press(&mut term, Key::Down);
    assert_eq!(term.selected_index(), 0);
}

#[test]
fn an_empty_list_takes_every_key() {
    let mut term = started(&[]);
    for key in [Key::Up, Key::Down, Key::Char('e'), Key::Char('r'), Key::Char('y'), Key::Esc] {
        assert_eq!(press(&mut term, key), Action::Redraw);
        assert_eq!(term.selected_index(), 0);
        assert_eq!(term.current_menu(), Menu::Main);
        assert!(!term.pending_confirmation());
    }
    assert_eq!(press(&mut term, Key::Char('c')), Action::Redraw);
    assert_eq!(term.copy_status(), Status::Fail);
    assert!(term.main_menu_rows(59).is_empty());
}

#[test]
fn deleting_the_last_row_moves_the_selection_up() {
    let mut term = started(&["a", "b", "c"]);
    press(&mut term, Key::Up);
    assert_eq!(press(&mut term, Key::Char('r')), Action::Redraw);
    assert!(term.pending_confirmation());
    assert_eq!(term.alternate_footer(), "y - Delete      n - Cancel");
    assert_eq!(press(&mut term, Key::Char('y')), Action::Persist);
    assert_eq!(labels(&term), ["a", "b"]);
    assert_eq!(term.selected_index(), 1);
    assert!(!term.pending_confirmation());
    assert_eq!(term.alternate_footer(), "");
}

#[test]
fn deleting_another_row_keeps_the_selection() {
    let mut term = started(&["a", "b", "c"]);
    press(&mut term, Key::Down);
    press(&mut term, Key::Char('r'));
    assert_eq!(press(&mut term, Key::Char('y')), Action::Persist);
    assert_eq!(labels(&term), ["a", "c"]);
    assert_eq!(term.selected_index(), 1);
    press(&mut term, Key::Up);
    press(&mut term, Key::Char('r'));
    assert_eq!(press(&mut term, Key::Char('y')), Action::Persist);
    assert_eq!(labels(&term), ["c"]);
    assert_eq!(term.selected_index(), 0);
    press(&mut term, Key::Char('r'));
    assert_eq!(press(&mut term, Key::Char('y')), Action::Persist);
    assert!(labels(&term).is_empty());
    assert_eq!(term.selected_index(), 0);
    assert_eq!(press(&mut term, Key::Char('r')), Action::Redraw);
    assert!(!term.pending_confirmation());
}

#[test]
fn any_other_key_cancels_a_deletion() {
    for key in [Key::Char('n'), Key::Char('q'), Key::Esc, Key::Backspace, Key::Other, Key::Left] {
        let mut term = started(&["a", "b"]);
        press(&mut term, Key::Char('r'));
        assert_eq!(press(&mut term, key), Action::Redraw);
        assert!(!term.pending_confirmation());
        assert_eq!(term.alternate_footer(), "");
        assert_eq!(term.current_menu(), Menu::Main);
        assert_eq!(labels(&term), ["a", "b"]);
    }
    let mut term = started(&["a", "b"]);
    press(&mut term, Key::Char('r'));
    press(&mut term, Key::Down);
    assert!(!term.pending_confirmation());
    assert_eq!(term.selected_index(), 1);
    assert_eq!(press(&mut term, Key::Char('y')), Action::Redraw);
    assert_eq!(labels(&term), ["a", "b"]);
}

#[test]
fn a_timeout_changes_nothing() {
    let mut term = started(&["a", "b"]);
    press(&mut term, Key::Char('r'));
    assert_eq!(term.step(Event::Timeout, 60), Action::Redraw);
    assert!(term.pending_confirmation());
    assert_eq!(term.selected_index(), 0);
}

#[test]
fn failures_of_the_channel_end_the_session() {
    let mut term = started(&["a"]);
    assert_eq!(term.step(Event::ReadFailed, 0), Action::Fail(Failure::ReadFailed));
    assert_eq!(term.step(Event::Disconnected, 0), Action::Fail(Failure::Disconnected));
    assert_eq!(Failure::ReadFailed.message(), "Could not read user input.");
    assert_eq!(Failure::Disconnected.message(), "Could not connect to the input thread.");
}

#[test]
fn quitting_is_asked_for_in_every_menu() {
    let mut term = started(&["a"]);
    assert_eq!(press(&mut term, Key::Char('q')), Action::Quit(0));
    assert_eq!(press(&mut term, Key::Ctrl('c')), Action::Quit(2));
    assert_eq!(press(&mut term, Key::Ctrl('d')), Action::Redraw);
    press(&mut term, Key::Char('n'));
    assert_eq!(press(&mut term, Key::Ctrl('c')), Action::Quit(2));
    assert_eq!(term.current_menu(), Menu::New);
    assert_eq!(press(&mut term, Key::Char('q')), Action::Redraw);
    assert_eq!(term.form().label, "q");
}

#[test]
fn copying_hands_out_the_code_of_the_selection() {
    let mut term = started(&["a", "b"]);
    assert_eq!(term.step(Event::Key(Key::Char('c')), 59), Action::Copy(String::from("263420")));
    assert_eq!(term.copy_status(), Status::Idle);
    term.copy_done(true);
    assert_eq!(term.copy_status(), Status::Success);
    assert_eq!(
        term.footer(),
        [
            plain("n - New      "),
            plain("e - Edit      "),
            Segment { text: String::from("c - Copy      "), status: Status::Success },
            plain("r - Delete      "),
            plain("q - Quit"),
        ]
    );
    term.copy_done(false);
    assert_eq!(term.copy_status(), Status::Fail);
    press(&mut term, Key::Down);
    assert_eq!(term.copy_status(), Status::Idle);
}

#[test]
fn copying_fails_without_a_code() {
    let mut broken = item("x");
    broken.secret = String::from("abc123");
    let mut term = Term::new(vec![broken, item("b")]);
    term.start();
    assert_eq!(press(&mut term, Key::Char('c')), Action::Redraw);
    assert_eq!(term.copy_status(), Status::Fail);
    assert_eq!(term.main_menu_rows(59), ["x - Error", "b - 263420"]);
    assert_eq!(term.main_menu_rows(60), ["x - Error", "b - 092045"]);
}

#[test]
fn end_to_end_a_new_item_is_added() {
    let mut term = started(&[]);
    assert_eq!(press(&mut term, Key::Char('n')), Action::Redraw);
    assert_eq!(term.current_menu(), Menu::New);
    assert_eq!(term.form().field, Field::Label);
    type_text(&mut term, "work");
    assert_eq!(press(&mut term, Key::Char('\n')), Action::Redraw);
    assert_eq!(term.form().field, Field::Secret);
    assert_eq!(term.form().cursor, 0);
    type_text(&mut term, "JBSWY3DPEHPK3PXP");
    assert_eq!(press(&mut term, Key::Char('\n')), Action::Redraw);
    type_text(&mut term, "6");
    assert_eq!(press(&mut term, Key::Char('\n')), Action::Redraw);
    assert_eq!(term.form().field, Field::Period);
    type_text(&mut term, "30");
    assert_eq!(term.footer(), [plain("Enter - Add      "), plain("Esc - Back")]);
    assert_eq!(press(&mut term, Key::Char('\n')), Action::Persist);
    assert_eq!(term.current_menu(), Menu::Main);
    assert_eq!(
        term.items(),
        &[Item {
            label: String::from("work"),
            secret: String::from("JBSWY3DPEHPK3PXP"),
            digits: Digits::Six,
            split_time: 30,
        }]
    );
    assert_eq!(term.main_menu_rows(0), ["work - 282760"]);
    let rows = term.main_menu_rows(1700000000);
    assert_eq!(rows, ["work - 324550"]);
    assert_eq!(term.form().label, "");
    assert_eq!(term.form().period, "");
}

#[test]
fn a_taken_label_keeps_the_new_menu_open() {
    let mut term = started(&["work"]);
    press(&mut term, Key::Char('n'));
    type_text(&mut term, "work");
    press(&mut term, Key::Up);
    assert_eq!(term.form().field, Field::Period);
    assert_eq!(press(&mut term, Key::Char('\n')), Action::Redraw);
    assert_eq!(term.current_menu(), Menu::New);
    assert_eq!(term.alternate_footer(), "An item with this label already exists.");
    assert_eq!(term.footer(), [plain("An item with this label already exists.")]);
    assert_eq!(term.form().label, "work");
    assert_eq!(labels(&term), ["work"]);
    press(&mut term, Key::Left);
    assert_eq!(term.alternate_footer(), "");
}

#[test]
fn validation_names_the_first_failure_and_keeps_the_fields() {
    let mut term = started(&[]);
    press(&mut term, Key::Char('n'));
    type_text(&mut term, "mail");
    press(&mut term, Key::Down);
    type_text(&mut term, "abcd");
    press(&mut term, Key::Down);
    press(&mut term, Key::Down);
    type_text(&mut term, "0");
    assert_eq!(press(&mut term, Key::Char('\n')), Action::Redraw);
    assert_eq!(term.alternate_footer(), "A valid number of digits is required.");
    press(&mut term, Key::Up);
    type_text(&mut term, "7");
    press(&mut term, Key::Down);
    assert_eq!(press(&mut term, Key::Char('\n')), Action::Redraw);
    assert_eq!(term.alternate_footer(), "A valid period greater than 0 is required.");
    assert_eq!(term.form().label, "mail");
    assert_eq!(term.form().secret, "abcd");
    assert_eq!(term.form().digits, "7");
    assert_eq!(term.form().period, "0");
    assert!(labels(&term).is_empty());
}

#[test]
fn editing_overwrites_the_selected_item() {
    let mut term = started(&["a", "b", "c"]);
    press(&mut term, Key::Down);
    assert_eq!(press(&mut term, Key::Char('e')), Action::Redraw);
    assert_eq!(term.current_menu(), Menu::Edit);
    assert_eq!(term.form().label, "b");
    assert_eq!(term.form().secret, "GEZDGNBVGY3TQOJQ");
    assert_eq!(term.form().digits, "6");
    assert_eq!(term.form().period, "30");
    press(&mut term, Key::Left);
    type_text(&mut term, "2");
    press(&mut term, Key::Up);
    press(&mut term, Key::Backspace);
    press(&mut term, Key::Backspace);
    type_text(&mut term, "45");
    assert_eq!(term.footer(), [plain("Enter - Save      "), plain("Esc - Back")]);
    assert_eq!(press(&mut term, Key::Char('\n')), Action::Persist);
    assert_eq!(term.current_menu(), Menu::Main);
    assert_eq!(term.selected_index(), 1);
    assert_eq!(labels(&term), ["a", "b2", "c"]);
    assert_eq!(term.items()[1].split_time, 45);
    assert_eq!(term.items()[1].digits, Digits::Six);
}

#[test]
fn editing_to_a_label_in_use_is_accepted() {
    let mut term = started(&["a", "b"]);
    press(&mut term, Key::Char('e'));
    press(&mut term, Key::Left);
    press(&mut term, Key::Backspace);
    type_text(&mut term, "b");
    press(&mut term, Key::Up);
    assert_eq!(press(&mut term, Key::Char('\n')), Action::Persist);
    assert_eq!(labels(&term), ["b", "b"]);
}

#[test]
fn escape_discards_the_form() {
    let mut term = started(&["a", "b", "c"]);
    press(&mut term, Key::Up);
    press(&mut term, Key::Char('e'));
    type_text(&mut term, "zz");
    assert_eq!(press(&mut term, Key::Esc), Action::Redraw);
    assert_eq!(term.current_menu(), Menu::Main);
    assert_eq!(term.selected_index(), 2);
    assert_eq!(labels(&term), ["a", "b", "c"]);
    assert_eq!(term.form().label, "");
    press(&mut term, Key::Char('n'));
    assert_eq!(term.form().label, "");
    type_text(&mut term, "zz");
    assert_eq!(press(&mut term, Key::Esc), Action::Redraw);
    assert_eq!(term.selected_index(), 0);
    assert_eq!(labels(&term), ["a", "b", "c"]);
}

#[test]
fn enter_walks_down_the_fields() {
    let mut term = started(&[]);
    press(&mut term, Key::Char('n'));
    type_text(&mut term, "label");
    assert_eq!(term.footer(), [plain("Enter - Next      "), plain("Esc - Back")]);
    assert_eq!(term.cursor_position(), (9, 4));
    press(&mut term, Key::Char('\n'));
    assert_eq!(term.form().field, Field::Secret);
    assert_eq!(term.cursor_position(), (4, 7));
    press(&mut term, Key::Down);
    assert_eq!(term.cursor_position(), (4, 10));
    press(&mut term, Key::Down);
    assert_eq!(term.cursor_position(), (4, 13));
    press(&mut term, Key::Down);
    assert_eq!(term.form().field, Field::Label);
    assert_eq!(term.form().cursor, 0);
    press(&mut term, Key::Left);
    assert_eq!(term.cursor_position(), (9, 4));
    press(&mut term, Key::Right);
    assert_eq!(term.cursor_position(), (4, 4));
}

#[test]
fn keys_that_no_menu_knows_leave_the_message() {
    let mut term = started(&[]);
    press(&mut term, Key::Char('n'));
    press(&mut term, Key::Up);
    press(&mut term, Key::Char('\n'));
    assert_eq!(term.alternate_footer(), "A label is required.");
    press(&mut term, Key::Other);
    assert_eq!(term.alternate_footer(), "A label is required.");
    press(&mut term, Key::Char(' '));
    assert_eq!(term.alternate_footer(), "");
    assert_eq!(term.form().period, "");
}
