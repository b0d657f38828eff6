//! The form of the New and Edit menus: four text fields, the field that
//! has the focus, and a cursor in it.

use crate::item::{views, Digits, Item, ItemView};
use crate::text::{
    decimal, decimal_string, display_width, insert_char, inserted, parse_decimal, parsed_decimal,
    remove_char, text_width,
};
use crate::totp::{is_valid_secret, valid_secret};
use crate::util::{
    base_32_char, contains_item_label, contains_white_space, decimal_digit, has_label,
    has_white_space, is_base_32_c, is_decimal_digit, is_white_space, white_space,
};
use vstd::prelude::*;

verus! {

/// The fields of the form, from top to bottom.
#[derive(Clone, Copy, Debug, PartialEq, Eq, Structural)]
pub enum Field {
    Label,
    Secret,
    Digits,
    Period,
}

/// The first rule that a form breaks.
#[derive(Clone, Copy, Debug, PartialEq, Eq, Structural)]
pub enum ValidationError {
    /// The label is empty.
    LabelMissing,
    /// The label holds white space.
    LabelWhiteSpace,
    /// Another item has the label already.
    LabelTaken,
    /// The secret is not Base32, or carries no byte.
    SecretInvalid,
    /// The digit count is not `6`, `7` or `8`.
    DigitsInvalid,
    /// The period is empty, not a number, or too large.
    PeriodInvalid,
    /// The period is zero.
    PeriodZero,
}

/// The form and its cursor.
#[derive(Clone, Debug)]
pub struct Form {
    pub label: String,
    pub secret: String,
    pub digits: String,
    pub period: String,
    /// The field that has the focus.
    pub field: Field,
    /// The cursor's column in that field, counted in characters.
    pub cursor: usize,
}

/// A form as plain values.
pub struct FormView {
    pub label: Seq<char>,
    pub secret: Seq<char>,
    pub digits: Seq<char>,
    pub period: Seq<char>,
    pub field: Field,
    pub cursor: nat,
}

impl Field {
    /// The field's place on the screen, counted from zero.
    pub open spec fn index(self) -> nat {
        match self {
            Field::Label => 0,
            Field::Secret => 1,
            Field::Digits => 2,
            Field::Period => 3,
        }
    }

    /// The field above; above the first is the last.
    pub open spec fn above(self) -> Field {
        match self {
            Field::Label => Field::Period,
            Field::Secret => Field::Label,
            Field::Digits => Field::Secret,
            Field::Period => Field::Digits,
        }
    }

    /// The field below; below the last is the first.
    pub open spec fn below(self) -> Field {
        match self {
            Field::Label => Field::Secret,
            Field::Secret => Field::Digits,
            Field::Digits => Field::Period,
            Field::Period => Field::Label,
        }
    }

    /// The characters that may be typed into the field. White space goes
    /// into none; the secret takes the Base32 alphabet, the digit count
    /// `6`, `7` and `8`, the period decimal digits.
    pub open spec fn takes(self, c: char) -> bool {
        !white_space(c) && match self {
            Field::Label => true,
            Field::Secret => base_32_char(c),
            Field::Digits => c == '6' || c == '7' || c == '8',
            Field::Period => decimal_digit(c),
        }
    }

    /// The field's place on the screen, counted from zero.
    pub fn row(&self) -> (r: usize)
        ensures
            r == self.index(),
    {
        match self {
            Field::Label => 0,
            Field::Secret => 1,
            Field::Digits => 2,
            Field::Period => 3,
        }
    }

    /// The field above, going round from the first to the last.
    pub fn previous(&self) -> (r: Field)
        ensures
            r == self.above(),
    {
        match self {
            Field::Label => Field::Period,
            Field::Secret => Field::Label,
            Field::Digits => Field::Secret,
            Field::Period => Field::Digits,
        }
    }

    /// The field below, going round from the last to the first.
    pub fn next(&self) -> (r: Field)
        ensures
            r == self.below(),
    {
        match self {
            Field::Label => Field::Secret,
            Field::Secret => Field::Digits,
            Field::Digits => Field::Period,
            Field::Period => Field::Label,
        }
    }

    /// Whether `c` may be typed into the field.
    pub fn accepts(&self, c: char) -> (r: bool)
        ensures
            r == self.takes(c),
    {
        if is_white_space(c) {
            return false;
        }
        match self {
            Field::Label => true,
            Field::Secret => is_base_32_c(c),
            Field::Digits => c == '6' || c == '7' || c == '8',
            Field::Period => is_decimal_digit(c),
        }
    }
}

impl ValidationError {
    /// The message that tells the user of the error.
    pub open spec fn message_text(self) -> Seq<char> {
        match self {
            ValidationError::LabelMissing => "A label is required."@,
            ValidationError::LabelWhiteSpace => "No whitespace is permitted in the label."@,
            ValidationError::LabelTaken => "An item with this label already exists."@,
            ValidationError::SecretInvalid => "A valid base-32 secret is required."@,
            ValidationError::DigitsInvalid => "A valid number of digits is required."@,
            ValidationError::PeriodInvalid => "A valid period is required."@,
            ValidationError::PeriodZero => "A valid period greater than 0 is required."@,
        }
    }

    /// The message that tells the user of the error.
    pub fn message(&self) -> (r: String)
        ensures
            r@ == self.message_text(),
    {
        match self {
            ValidationError::LabelMissing => "A label is required.".to_string(),
            ValidationError::LabelWhiteSpace => {
                "No whitespace is permitted in the label.".to_string()
            },
            ValidationError::LabelTaken => "An item with this label already exists.".to_string(),
            ValidationError::SecretInvalid => "A valid base-32 secret is required.".to_string(),
            ValidationError::DigitsInvalid => "A valid number of digits is required.".to_string(),
            ValidationError::PeriodInvalid => "A valid period is required.".to_string(),
            ValidationError::PeriodZero => "A valid period greater than 0 is required.".to_string(),
        }
    }
}

/// Some item of `items` carries exactly the label `label`.
pub open spec fn label_in_use(label: Seq<char>, items: Seq<ItemView>) -> bool {
    exists|i: int| 0 <= i < items.len() && (#[trigger] items[i]).label == label
}

impl FormView {
    /// The form with nothing in it, the focus on the label.
    pub open spec fn empty() -> FormView {
        FormView {
            label: Seq::empty(),
            secret: Seq::empty(),
            digits: Seq::empty(),
            period: Seq::empty(),
            field: Field::Label,
            cursor: 0,
        }
    }

    /// The form that holds the fields of `item`, the focus on the label.
    pub open spec fn of_item(item: ItemView) -> FormView {
        FormView {
            label: item.label,
            secret: item.secret,
            digits: item.digits.text(),
            period: decimal(item.period),
            field: Field::Label,
            cursor: 0,
        }
    }

    /// The text of the field `field`.
    pub open spec fn text_of(self, field: Field) -> Seq<char> {
        match field {
            Field::Label => self.label,
            Field::Secret => self.secret,
            Field::Digits => self.digits,
            Field::Period => self.period,
        }
    }

    /// The text of the field that has the focus.
    pub open spec fn text(self) -> Seq<char> {
        self.text_of(self.field)
    }

    /// The form with `text` in the field that has the focus.
    pub open spec fn with_text(self, text: Seq<char>) -> FormView {
        match self.field {
            Field::Label => FormView { label: text, ..self },
            Field::Secret => FormView { secret: text, ..self },
            Field::Digits => FormView { digits: text, ..self },
            Field::Period => FormView { period: text, ..self },
        }
    }

    /// The cursor stands within the displayed width of its field's text.
    pub open spec fn cursor_in_bounds(self) -> bool {
        self.cursor <= display_width(self.text())
    }

    /// Where a typed character goes: at the cursor, or at the end of the
    /// text where the cursor stands beyond it.
    pub open spec fn insertion_point(self) -> nat {
        if self.cursor < self.text().len() {
            self.cursor
        } else {
            self.text().len()
        }
    }

    /// After the character `c` is typed. A character that the field takes
    /// goes in at the insertion point and the cursor moves behind it; any
    /// other leaves the form as it is.
    pub open spec fn typed(self, c: char) -> FormView {
        if self.field.takes(c) {
            FormView {
                cursor: self.insertion_point() + 1,
                ..self.with_text(inserted(self.text(), self.cursor, c))
            }
        } else {
            self
        }
    }

    /// After Backspace. The character left of the cursor goes and the
    /// cursor moves one to the left; with the cursor at column 0 or beyond
    /// the end of the text nothing happens.
    pub open spec fn erased(self) -> FormView {
        if 1 <= self.cursor <= self.text().len() {
            FormView {
                cursor: (self.cursor - 1) as nat,
                ..self.with_text(self.text().remove(self.cursor - 1))
            }
        } else {
            self
        }
    }

    /// After Right. The cursor moves one column to the right; from the
    /// text's displayed width, or beyond it, it goes to column 0.
    pub open spec fn moved_right(self) -> FormView {
        if self.cursor < display_width(self.text()) {
            FormView { cursor: self.cursor + 1, ..self }
        } else {
            FormView { cursor: 0, ..self }
        }
    }

    /// After Left. The cursor moves one column to the left; from column 0
    /// or 1 it goes to the text's displayed width.
    pub open spec fn moved_left(self) -> FormView {
        if self.cursor > 1 {
            FormView { cursor: (self.cursor - 1) as nat, ..self }
        } else {
            FormView { cursor: display_width(self.text()), ..self }
        }
    }

    /// The cursor brought back to the displayed width of its field's text
    /// where it stands beyond it.
    pub open spec fn clamped(self) -> FormView {
        if self.cursor > display_width(self.text()) {
            FormView { cursor: display_width(self.text()), ..self }
        } else {
            self
        }
    }

    /// After the focus moves to `field`: the cursor keeps its column as
    /// far as the new field's text allows.
    pub open spec fn focused(self, field: Field) -> FormView {
        FormView { field: field, ..self }.clamped()
    }

    /// The item that the form describes, or the first rule it breaks.
    /// The rules, in order: the label is not empty, holds no white space
    /// and, unless `allow_same_name`, is the label of no item of `items`;
    /// the secret is Base32 that carries at least one byte; the digit
    /// count is `6`, `7` or `8`; the period is a decimal number that fits
    /// in 32 bits, and is not zero.
    pub open spec fn validated(self, items: Seq<ItemView>, allow_same_name: bool) -> Result<
        ItemView,
        ValidationError,
    > {
        if self.label.len() == 0 {
            Err(ValidationError::LabelMissing)
        } else if has_white_space(self.label) {
            Err(ValidationError::LabelWhiteSpace)
        } else if !allow_same_name && label_in_use(self.label, items) {
            Err(ValidationError::LabelTaken)
        } else if !valid_secret(self.secret) {
            Err(ValidationError::SecretInvalid)
        } else if Digits::of_text(self.digits) is None {
            Err(ValidationError::DigitsInvalid)
        } else if parsed_decimal(self.period) is None {
            Err(ValidationError::PeriodInvalid)
        } else if parsed_decimal(self.period) == Some(0u32) {
            Err(ValidationError::PeriodZero)
        } else {
            Ok(
                ItemView {
                    label: self.label,
                    secret: self.secret,
                    digits: Digits::of_text(self.digits)->Some_0,
                    period: parsed_decimal(self.period)->Some_0 as nat,
                },
            )
        }
    }
}

impl View for Form {
    type V = FormView;

    open spec fn view(&self) -> FormView {
        FormView {
            label: self.label@,
            secret: self.secret@,
            digits: self.digits@,
            period: self.period@,
            field: self.field,
            cursor: self.cursor as nat,
        }
    }
}

impl Form {
    /// A form with nothing in it.
    pub fn new() -> (form: Form)
        ensures
            form@ == FormView::empty(),
    {
        Form {
            label: String::new(),
            secret: String::new(),
            digits: String::new(),
            period: String::new(),
            field: Field::Label,
            cursor: 0,
        }
    }

    /// A form that holds the fields of `item`.
    pub fn of_item(item: &Item) -> (form: Form)
        ensures
            form@ == FormView::of_item(item@),
    {
        Form {
            label: item.label.clone(),
            secret: item.secret.clone(),
            digits: item.digits.to_string(),
            period: decimal_string(item.split_time),
            field: Field::Label,
            cursor: 0,
        }
    }

    /// The text of the field that has the focus.
    pub fn text(&self) -> (text: &String)
        ensures
            text@ == self@.text(),
    {
        match self.field {
            Field::Label => &self.label,
            Field::Secret => &self.secret,
            Field::Digits => &self.digits,
            Field::Period => &self.period,
        }
    }

    fn set_text(&mut self, text: String)
        ensures
            final(self)@ == old(self)@.with_text(text@),
    {
        match self.field {
            Field::Label => {
                self.label = text;
            },
            Field::Secret => {
                self.secret = text;
            },
            Field::Digits => {
                self.digits = text;
            },
            Field::Period => {
                self.period = text;
            },
        }
    }

    /// Types the character `c` into the field that has the focus.
    pub fn type_char(&mut self, c: char)
        ensures
            final(self)@ == old(self)@.typed(c),
    {
        if !self.field.accepts(c) {
            return ;
        }
        let edited = insert_char(self.text().as_str(), self.cursor, c);
        let length = edited.as_str().unicode_len();
        self.set_text(edited);
        self.cursor = if self.cursor < length - 1 {
            self.cursor + 1
        } else {
            length
        };
    }

    /// Takes away the character left of the cursor.
    pub fn backspace(&mut self)
        ensures
            final(self)@ == old(self)@.erased(),
    {
        let length = self.text().as_str().unicode_len();
        if 1 <= self.cursor && self.cursor <= length {
            let edited = remove_char(self.text().as_str(), self.cursor - 1);
            self.set_text(edited);
            self.cursor = self.cursor - 1;
        }
    }

    /// Moves the cursor one column to the right, or round to column 0.
    pub fn move_right(&mut self)
        ensures
            final(self)@ == old(self)@.moved_right(),
    {
        let width = text_width(self.text().as_str());
        if self.cursor < width {
            self.cursor = self.cursor + 1;
        } else {
            self.cursor = 0;
        }
    }

    /// Moves the cursor one column to the left, or round to the end.
    pub fn move_left(&mut self)
        ensures
            final(self)@ == old(self)@.moved_left(),
    {
        if self.cursor > 1 {
            self.cursor = self.cursor - 1;
        } else {
            self.cursor = text_width(self.text().as_str());
        }
    }

    /// Brings the cursor back into the text of its field.
    pub fn clamp_cursor(&mut self)
        ensures
            final(self)@ == old(self)@.clamped(),
    {
        let width = text_width(self.text().as_str());
        if self.cursor > width {
            self.cursor = width;
        }
    }

    /// Moves the focus to `field`.
    pub fn focus(&mut self, field: Field)
        ensures
            final(self)@ == old(self)@.focused(field),
    {
        self.field = field;
        self.clamp_cursor();
    }

    /// Builds the item that the form describes, or names the first rule
    /// that the form breaks.
    pub fn validate(&self, items: &Vec<Item>, allow_same_name: bool) -> (r: Result<
        Item,
        ValidationError,
    >)
        ensures
            match r {
                Ok(item) => self@.validated(views(items@), allow_same_name) == Ok::<
                    ItemView,
                    ValidationError,
                >(item@),
                Err(e) => self@.validated(views(items@), allow_same_name) == Err::<
                    ItemView,
                    ValidationError,
                >(e),
            },
    {
        if self.label.as_str().unicode_len() == 0 {
            return Err(ValidationError::LabelMissing);
        }
        if contains_white_space(&self.label) {
            return Err(ValidationError::LabelWhiteSpace);
        }
        if !allow_same_name {
            let taken = contains_item_label(&self.label, items);
            proof {
                lemma_label_in_use(self.label@, items@);
            }
            if taken {
                return Err(ValidationError::LabelTaken);
            }
        }
        if !is_valid_secret(self.secret.as_str()) {
            return Err(ValidationError::SecretInvalid);
        }
        let digits = match Digits::parse(self.digits.as_str()) {
            Some(digits) => digits,
            None => {
                return Err(ValidationError::DigitsInvalid);
            },
        };
        let period = match parse_decimal(self.period.as_str()) {
            Some(period) => period,
            None => {
                return Err(ValidationError::PeriodInvalid);
            },
        };
        if period == 0 {
            return Err(ValidationError::PeriodZero);
        }
        Ok(
            Item {
                label: self.label.clone(),
                secret: self.secret.clone(),
                digits,
                split_time: period,
            },
        )
    }
}

/// A label is in use among items exactly when it is in use among them
/// taken as plain values.
pub proof fn lemma_label_in_use(label: Seq<char>, items: Seq<Item>)
    ensures
        has_label(label, items) == label_in_use(label, views(items)),
{
    if has_label(label, items) {
        let i = choose|i: int| 0 <= i < items.len() && (#[trigger] items[i]).label@ == label;
        assert(views(items)[i].label == label);
    }
    if label_in_use(label, views(items)) {
        let i = choose|i: int|
            0 <= i < views(items).len() && (#[trigger] views(items)[i]).label == label;
        assert(items[i].label@ == label);
    }
}

} // verus!
