//! The picker's single source of truth: the raw typed text, the count of
//! selectable targets, the derived parsed selection and the derived status
//! message.

use crate::numeric::{
    dec_digits, decimal_string, parse_positive, parse_positive_spec, parses_as_positive,
};
use vstd::prelude::*;
use vstd::string::StringExecFns;

verus! {

/// The informational message shown when the picker opens.
pub open spec fn total_message(total_targets: usize) -> Seq<char> {
    "Total targets: "@ + dec_digits(total_targets as nat)
}

/// The prompt shown after every edit, naming the valid range.
pub open spec fn range_message(total_targets: usize) -> Seq<char> {
    "Enter a number between 1 and "@ + dec_digits(total_targets as nat)
}

/// The mathematical model of a [`PickerState`].
pub ghost struct StateModel {
    pub raw_input: Seq<char>,
    pub total_targets: usize,
    pub status_text: Seq<char>,
    pub parsed_selection: Option<usize>,
}

/// The model of a freshly opened picker over `total_targets` targets.
pub open spec fn new_state_model(total_targets: usize) -> StateModel {
    StateModel {
        raw_input: Seq::<char>::empty(),
        total_targets: total_targets,
        status_text: total_message(total_targets),
        parsed_selection: None,
    }
}

/// The model after the text-changed notification: the raw text is replaced,
/// the parsed selection and the status message are recomputed, and the
/// target count is untouched.
pub open spec fn input_model(m: StateModel, text: Seq<char>) -> StateModel {
    StateModel {
        raw_input: text,
        total_targets: m.total_targets,
        status_text: range_message(m.total_targets),
        parsed_selection: parse_positive_spec(text),
    }
}

/// The parsed selection, but only when it lies in `[1, total_targets]`.
pub open spec fn validated_model(m: StateModel) -> Option<usize> {
    match m.parsed_selection {
        Some(v) => if 1 <= v && v <= m.total_targets {
            Some(v)
        } else {
            None
        },
        None => None,
    }
}

/// Holds the current raw input text, the last parsed selection (if any), the
/// total count of selectable targets, and the derived status message.
pub struct PickerState {
    raw_input: String,
    total_targets: usize,
    status_text: String,
    parsed_selection: Option<usize>,
}

impl View for PickerState {
    type V = StateModel;

    closed spec fn view(&self) -> StateModel {
        StateModel {
            raw_input: self.raw_input@,
            total_targets: self.total_targets,
            status_text: self.status_text@,
            parsed_selection: self.parsed_selection,
        }
    }
}

fn total_message_string(total_targets: usize) -> (r: String)
    ensures
        r@ == total_message(total_targets),
{
    let mut s = String::from_str("Total targets: ");
    s.append(decimal_string(total_targets).as_str());
    s
}

fn range_message_string(total_targets: usize) -> (r: String)
    ensures
        r@ == range_message(total_targets),
{
    let mut s = String::from_str("Enter a number between 1 and ");
    s.append(decimal_string(total_targets).as_str());
    s
}

impl PickerState {
    /// Opens a picker over `total_targets` targets: empty input, no parsed
    /// selection, and a status message reporting the total.
    pub fn new(total_targets: usize) -> (s: Self)
        ensures
            s@ == new_state_model(total_targets),
    {
        PickerState {
            raw_input: String::new(),
            total_targets,
            status_text: total_message_string(total_targets),
            parsed_selection: None,
        }
    }

    /// Replaces the raw input and recomputes the two derived fields: the
    /// parsed selection from the new text, and the status message naming the
    /// valid range. Never fails: non-numeric text simply parses to `None`.
    pub fn on_input_changed(&mut self, new_text: String)
        ensures
            final(self)@ == input_model(old(self)@, new_text@),
    {
        self.parsed_selection = parse_positive(new_text.as_str());
        self.raw_input = new_text;
        self.status_text = range_message_string(self.total_targets);
    }

    /// The parsed selection when it lies in `[1, total_targets]`; `None`
    /// otherwise. The single authority collaborators must consult before
    /// acting on the typed input.
    pub fn validated_selection(&self) -> (r: Option<usize>)
        ensures
            r == validated_model(self@),
    {
        match self.parsed_selection {
            Some(v) => if 1 <= v && v <= self.total_targets {
                Some(v)
            } else {
                None
            },
            None => None,
        }
    }

    /// The current status message, for the render boundary.
    pub fn status_text(&self) -> (r: String)
        ensures
            r@ == self@.status_text,
    {
        self.status_text.clone()
    }

    /// The exact current contents of the input field.
    pub fn raw_input(&self) -> (r: String)
        ensures
            r@ == self@.raw_input,
    {
        self.raw_input.clone()
    }

    /// The count of selectable targets this picker was opened over.
    pub fn total_targets(&self) -> (r: usize)
        ensures
            r == self@.total_targets,
    {
        self.total_targets
    }
}

/// For every target count `n` and every input text `s`, a freshly opened
/// picker that receives `s` validates to `Some(v)` exactly when `s` trimmed
/// reads as the positive integer `v` and `v` lies in `[1, n]`.
pub proof fn lemma_validated_selection_characterization(n: usize, s: Seq<char>, v: usize)
    ensures
        validated_model(input_model(new_state_model(n), s)) == Some(v) <==> (parses_as_positive(
            s,
            v,
        ) && 1 <= v && v <= n),
{
}

/// Receiving the same text twice leaves the same status text and parsed
/// selection as receiving it once: the text-changed transition is idempotent.
pub proof fn lemma_input_idempotent(m: StateModel, s: Seq<char>)
    ensures
        input_model(input_model(m, s), s) == input_model(m, s),
{
}

} // verus!
