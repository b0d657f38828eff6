//! What holds of the controller in every state.

use crate::interactive::form::{label_in_use, Field, FormView, ValidationError};
use crate::interactive::term::{ActionView, Event, Key, Menu, TermView};
use crate::item::{lemma_digits_round_trip, ItemView};
use crate::text::{display_width, lemma_decimal_round_trip};
use crate::totp::{lemma_generated_shape, valid_secret};
use crate::util::{all_decimal, has_white_space};
use vstd::prelude::*;

verus! {

/// No two items of `items` carry the same label.
pub open spec fn labels_distinct(items: Seq<ItemView>) -> bool {
    forall|i: int, j: int|
        0 <= i < j < items.len() ==> (#[trigger] items[i]).label != (#[trigger] items[j]).label
}

/// A session starts in a valid state, and no event leads out of the
/// valid states.
pub proof fn lemma_states_stay_valid(
    items: Seq<ItemView>,
    state: TermView,
    event: Event,
    instant: nat,
)
    requires
        state.valid(),
    ensures
        TermView::initial(items).valid(),
        state.after(event, instant).valid(),
        state.switched(Menu::Main).valid(),
{
}

/// A form whose label is the label of an item already is rejected where
/// an item is to be added: validation yields an error, and Enter on the
/// last field of the New menu leaves the list and the menu as they are.
pub proof fn lemma_taken_label_is_rejected(state: TermView, instant: nat)
    requires
        state.menu == Menu::New,
        state.form.field == Field::Period,
        label_in_use(state.form.label, state.items),
    ensures
        state.form.validated(state.items, false) is Err,
        state.form.label.len() > 0 && !has_white_space(state.form.label)
            ==> state.form.validated(state.items, false) == Err::<ItemView, ValidationError>(
            ValidationError::LabelTaken,
        ),
        state.after(Event::Key(Key::Char('\n')), instant).items == state.items,
        state.after(Event::Key(Key::Char('\n')), instant).menu == Menu::New,
        state.after(Event::Key(Key::Char('\n')), instant).form == state.form,
        state.action(Event::Key(Key::Char('\n')), instant) == ActionView::Redraw,
{
}

/// Where an item is edited the labels of the items play no part: the
/// form is judged as if the list were empty, so a label that another
/// item has is accepted.
pub proof fn lemma_edit_ignores_other_labels(form: FormView, items: Seq<ItemView>)
    ensures
        form.validated(items, true) == form.validated(Seq::<ItemView>::empty(), false),
{
    assert(!label_in_use(form.label, Seq::<ItemView>::empty()));
}

/// Adding an item through the New menu keeps the labels of the list
/// distinct.
pub proof fn lemma_adding_keeps_labels_distinct(state: TermView, event: Event, instant: nat)
    requires
        state.valid(),
        state.menu == Menu::New,
        labels_distinct(state.items),
    ensures
        labels_distinct(state.after(event, instant).items),
{
    let next = state.after(event, instant);
    if next.items != state.items {
        let item = state.form_result()->Ok_0;
        assert(next.items == state.items.push(item));
        assert(!label_in_use(item.label, state.items));
        assert forall|i: int, j: int| 0 <= i < j < next.items.len() implies (
        #[trigger] next.items[i]).label != (#[trigger] next.items[j]).label by {
            if j == state.items.len() {
                assert(state.items[i].label != item.label);
            }
        }
    }
}

/// An item that a form yields has a code at every instant, of the length
/// that its digit count says.
pub proof fn lemma_validated_items_have_codes(
    form: FormView,
    items: Seq<ItemView>,
    allow_same_name: bool,
    instant: nat,
)
    requires
        form.validated(items, allow_same_name) is Ok,
    ensures
        ({
            let item = form.validated(items, allow_same_name)->Ok_0;
            &&& item.code(instant) is Ok
            &&& item.code(instant)->Ok_0.len() == item.digits.count()
            &&& all_decimal(item.code(instant)->Ok_0)
        }),
{
    let item = form.validated(items, allow_same_name)->Ok_0;
    lemma_generated_shape(item.secret, item.period, item.digits, instant);
}

/// A form filled from an item that breaks no rule yields that item
/// again, whatever the other items are: saving an item as the Edit menu
/// shows it changes nothing.
pub proof fn lemma_form_of_item_yields_item(item: ItemView, items: Seq<ItemView>)
    requires
        item.label.len() > 0,
        !has_white_space(item.label),
        valid_secret(item.secret),
        0 < item.period <= u32::MAX,
    ensures
        FormView::of_item(item).validated(items, true) == Ok::<ItemView, ValidationError>(item),
{
    lemma_digits_round_trip(item.digits);
    lemma_decimal_round_trip(item.period);
}

/// In the main menu Down from the last row leads to the first and Up from
/// the first row leads to the last; with a single row both keep it.
pub proof fn lemma_selection_wraps(state: TermView, instant: nat)
    requires
        state.valid(),
        state.menu == Menu::Main,
        state.items.len() > 0,
    ensures
        state.selected == state.items.len() - 1 ==> state.after(
            Event::Key(Key::Down),
            instant,
        ).selected == 0,
        state.selected == 0 ==> state.after(Event::Key(Key::Up), instant).selected
            == state.items.len() - 1,
        state.selected < state.items.len() - 1 ==> state.after(
            Event::Key(Key::Down),
            instant,
        ).selected == state.selected + 1,
        state.selected > 0 ==> state.after(Event::Key(Key::Up), instant).selected
            == state.selected - 1,
        state.items.len() == 1 ==> state.after(Event::Key(Key::Down), instant).selected == 0
            && state.after(Event::Key(Key::Up), instant).selected == 0,
        state.after(Event::Key(Key::Down), instant).calm() == state.after(
            Event::Key(Key::Down),
            instant,
        ),
        state.after(Event::Key(Key::Up), instant).calm() == state.after(
            Event::Key(Key::Up),
            instant,
        ),
{
}

/// A confirmed deletion takes the selected item out of the list and asks
/// for the list to be written once. The selection moves up by one from
/// the last row, unless that is the first, and stays on any other row.
/// While the confirmation is pending no other key asks for a write or
/// changes the list.
pub proof fn lemma_deletion(state: TermView, key: Key, instant: nat)
    requires
        state.valid(),
        state.pending,
    ensures
        ({
            let next = state.after(Event::Key(Key::Char('y')), instant);
            &&& next.items == state.items.remove(state.selected as int)
            &&& state.action(Event::Key(Key::Char('y')), instant) == ActionView::Persist
            &&& !next.pending
            &&& state.selected == state.items.len() - 1 && state.selected > 0 ==> next.selected
                == state.selected - 1
            &&& state.selected == 0 ==> next.selected == 0
            &&& state.selected < state.items.len() - 1 ==> next.selected == state.selected
        }),
        key != Key::Char('y') ==> state.after(Event::Key(key), instant).items == state.items,
        key != Key::Char('y') && key != Key::Ctrl('c') ==> !state.after(
            Event::Key(key),
            instant,
        ).pending && state.action(Event::Key(key), instant) == ActionView::Redraw,
{
}

/// Left from column 0 leads to the displayed width of the text, and
/// Right from there leads back to column 0.
pub proof fn lemma_cursor_wraps(form: FormView)
    ensures
        form.cursor == 0 ==> form.moved_left().cursor == display_width(form.text()),
        form.cursor == display_width(form.text()) ==> form.moved_right().cursor == 0,
        form.cursor < display_width(form.text()) ==> form.moved_right().cursor == form.cursor
            + 1,
        1 < form.cursor ==> form.moved_left().cursor == form.cursor - 1,
{
}

/// Moving the cursor or the focus never takes the cursor beyond the
/// displayed width of the text it stands in.
pub proof fn lemma_moves_keep_cursor_in_bounds(form: FormView, field: Field)
    ensures
        form.moved_right().cursor_in_bounds(),
        form.clamped().cursor_in_bounds(),
        form.focused(field).cursor_in_bounds(),
        form.cursor_in_bounds() ==> form.moved_left().cursor_in_bounds(),
{
}

/// Typing and erasing keep the cursor within the displayed width of the
/// text where the edited text is at least as wide as it has characters.
pub proof fn lemma_edits_keep_cursor_in_bounds(form: FormView, c: char)
    ensures
        form.cursor_in_bounds() && display_width(form.typed(c).text()) >= form.typed(
            c,
        ).text().len() ==> form.typed(c).cursor_in_bounds(),
        form.cursor_in_bounds() && display_width(form.erased().text())
            >= form.erased().text().len() ==> form.erased().cursor_in_bounds(),
{
}

/// No key of the New and Edit menus takes the cursor beyond the
/// displayed width of the text it stands in, as long as that text is at
/// least as wide as it has characters.
pub proof fn lemma_keys_keep_cursor_in_bounds(state: TermView, key: Key)
    ensures
        ({
            let next = state.after_form_key(key).form;
            state.form.cursor_in_bounds() && display_width(next.text()) >= next.text().len()
                ==> next.cursor_in_bounds()
        }),
{
    lemma_moves_keep_cursor_in_bounds(state.form, state.form.field.above());
    lemma_moves_keep_cursor_in_bounds(state.form, state.form.field.below());
    match key {
        Key::Char(c) => {
            lemma_edits_keep_cursor_in_bounds(state.form, c);
        },
        _ => {
            lemma_edits_keep_cursor_in_bounds(state.form, ' ');
        },
    }
}

} // verus!
