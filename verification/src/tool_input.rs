//! The input of a tool: the fields of a JSON object, as far as tools read them.

use vstd::prelude::*;

use crate::rows::{first_match, lemma_is_first_match, lemma_no_match};
use crate::text::{same_text, views};

verus! {

/// A value of a field.
#[derive(Debug, PartialEq, Eq)]
#[allow(inconsistent_fields)]
pub enum InputValue {
    Text(String),
    /// A whole number.
    Integer(i128),
    /// Anything else.
    Other,
}

/// The view of [`InputValue`].
#[verifier::ext_equal]
#[allow(inconsistent_fields)]
pub enum InputValueView {
    Text(Seq<char>),
    Integer(i128),
    Other,
}

impl View for InputValue {
    type V = InputValueView;

    open spec fn view(&self) -> InputValueView {
        match self {
            InputValue::Text(text) => InputValueView::Text(text@),
            InputValue::Integer(number) => InputValueView::Integer(*number),
            InputValue::Other => InputValueView::Other,
        }
    }
}

impl Clone for InputValue {
    fn clone(&self) -> (result: Self)
        ensures
            result@ == self@,
    {
        match self {
            InputValue::Text(text) => InputValue::Text(text.clone()),
            InputValue::Integer(number) => InputValue::Integer(*number),
            InputValue::Other => InputValue::Other,
        }
    }
}

/// A field of an input.
#[derive(Debug, PartialEq, Eq)]
pub struct InputField {
    pub key: String,
    pub value: InputValue,
}

/// The view of [`InputField`].
#[verifier::ext_equal]
pub struct InputFieldView {
    pub key: Seq<char>,
    pub value: InputValueView,
}

impl View for InputField {
    type V = InputFieldView;

    open spec fn view(&self) -> InputFieldView {
        InputFieldView {
            key: self.key@,
            value: self.value@,
        }
    }
}

impl Clone for InputField {
    fn clone(&self) -> (result: Self)
        ensures
            result@ == self@,
    {
        let result = InputField {
            key: self.key.clone(),
            value: self.value.clone(),
        };
        result
    }
}

/// The input of a tool.
#[derive(Debug, PartialEq, Eq)]
pub struct ToolInput {
    pub fields: Vec<InputField>,
}

/// The view of [`ToolInput`].
#[verifier::ext_equal]
pub struct ToolInputView {
    pub fields: Seq<InputFieldView>,
}

impl View for ToolInput {
    type V = ToolInputView;

    open spec fn view(&self) -> ToolInputView {
        ToolInputView {
            fields: views(self.fields@),
        }
    }
}

impl Clone for ToolInput {
    fn clone(&self) -> (result: Self)
        ensures
            result@ == self@,
    {
        let result = ToolInput {
            fields: self.fields.clone(),
        };
        assert(views(result.fields@) =~= views(self.fields@));
        result
    }
}

/// Accepts the field with a key.
pub open spec fn field_named(key: Seq<char>) -> spec_fn(InputFieldView) -> bool {
    |field: InputFieldView| field.key == key
}

/// The value of the field with a key.
pub open spec fn value_of(input: ToolInputView, key: Seq<char>) -> Option<InputValueView> {
    match first_match(input.fields, field_named(key)) {
        Some(i) => Some(input.fields[i].value),
        None => None,
    }
}

/// The value of the field with a key or, where that is missing, of the one with
/// another key.
pub open spec fn value_of_either(
    input: ToolInputView,
    key: Seq<char>,
    other: Seq<char>,
) -> Option<InputValueView> {
    match value_of(input, key) {
        Some(value) => Some(value),
        None => value_of(input, other),
    }
}

/// A value, where it is a text.
pub open spec fn as_text(value: Option<InputValueView>) -> Option<Seq<char>> {
    match value {
        Some(InputValueView::Text(text)) => Some(text),
        _ => None,
    }
}

/// A value, where it is a text; otherwise an empty text.
pub open spec fn text_or_none(value: Option<InputValueView>) -> Seq<char> {
    match value {
        Some(InputValueView::Text(text)) => text,
        _ => Seq::empty(),
    }
}

/// The texts of values that are there.
pub open spec fn ref_text(text: Option<&String>) -> Option<Seq<char>> {
    match text {
        Some(text) => Some(text@),
        None => None,
    }
}

impl ToolInput {
    /// The value of the field with a key.
    pub fn get(&self, key: &str) -> (result: Option<&InputValue>)
        ensures
            match result {
                Some(value) => value_of(self@, key@) == Some(value@),
                None => value_of(self@, key@) is None,
            },
    {
        let ghost all = views(self.fields@);
        let ghost wanted = field_named(key@);
        let mut i: usize = 0;
        while i < self.fields.len()
            invariant
                i <= self.fields.len(),
                all == views(self.fields@),
                wanted == field_named(key@),
                forall|j: int| 0 <= j < i ==> !wanted(#[trigger] all[j]),
            decreases self.fields.len() - i,
        {
            assert(all[i as int] == self.fields@[i as int]@);
            if same_text(self.fields[i].key.as_str(), key) {
                proof {
                    lemma_is_first_match(all, wanted, i as int);
                }
                return Some(&self.fields[i].value);
            }
            i = i + 1;
        }
        proof {
            lemma_no_match(all, wanted);
        }
        None
    }

    /// The value of the field with a key or, where that is missing, of the one with
    /// another key.
    pub fn get_either(&self, key: &str, other: &str) -> (result: Option<&InputValue>)
        ensures
            match result {
                Some(value) => value_of_either(self@, key@, other@) == Some(value@),
                None => value_of_either(self@, key@, other@) is None,
            },
    {
        match self.get(key) {
            Some(value) => Some(value),
            None => self.get(other),
        }
    }

    /// The text under a key.
    pub fn text(&self, key: &str) -> (result: Option<&String>)
        ensures
            ref_text(result) == as_text(value_of(self@, key@)),
    {
        match self.get(key) {
            Some(InputValue::Text(text)) => Some(text),
            _ => None,
        }
    }

    /// The text under a key or, where that is missing, under another key.
    pub fn text_of_either(&self, key: &str, other: &str) -> (result: Option<&String>)
        ensures
            ref_text(result) == as_text(value_of_either(self@, key@, other@)),
    {
        match self.get_either(key, other) {
            Some(InputValue::Text(text)) => Some(text),
            _ => None,
        }
    }
}

} // verus!
