//! What a screen shows of a session, as plain values: the segments of the
//! input line, the entries of the open list, and the share of the screen
//! that the list takes. Drawing them is the host's business.

use vstd::prelude::*;
use vstd::string::StringExecFns;
use crate::selection::{DataType, Endianness, InputFormat};
use crate::session::{App, AppState};

verus! {

/// A selector's text: the label between `"[ "` and `" ]"`.
pub open spec fn bracketed(label: Seq<char>) -> Seq<char> {
    seq!['[', ' '] + label + seq![' ', ']']
}

/// The label of a row as it is shown in front of the row's text.
pub open spec fn captioned(label: Seq<char>) -> Seq<char> {
    label + seq![':', ' ']
}

impl AppState {
    /// The four segments of the input line, left to right, each with its text
    /// and whether it is highlighted: the three selectors, of which the one in
    /// focus is highlighted, and the numeral behind the prefix of its base,
    /// highlighted while it is edited and no list is open.
    pub open spec fn input_line(self) -> Seq<(Seq<char>, bool)> {
        seq![
            (bracketed(self.data_type.label()), self.active_dropdown == 0),
            (bracketed(self.endianness.short_label()), self.active_dropdown == 1),
            (bracketed(self.input_format.short_label()), self.active_dropdown == 2),
            (self.input_format.prefix() + self.input, self.input_mode && !self.dropdown_open),
        ]
    }

    /// The title of the list of the selector in focus.
    pub open spec fn dropdown_title(self) -> Seq<char> {
        if self.active_dropdown == 0 {
            "Data Type"@
        } else if self.active_dropdown == 1 {
            "Endianness"@
        } else {
            "Input Format"@
        }
    }

    /// The entries of the list of the selector in focus, top to bottom, each
    /// with its text and whether it is the current selection.
    pub open spec fn dropdown_entries(self) -> Seq<(Seq<char>, bool)> {
        if self.active_dropdown == 0 {
            DataType::catalogue().map_values(|t: DataType| (t.label(), t == self.data_type))
        } else if self.active_dropdown == 1 {
            Endianness::catalogue().map_values(|e: Endianness| (e.label(), e == self.endianness))
        } else {
            InputFormat::catalogue().map_values(
                |f: InputFormat| (f.label(), f == self.input_format),
            )
        }
    }
}

/// Puts a selector's label between brackets.
pub fn selector_text(label: &str) -> (text: String)
    ensures
        text@ == bracketed(label@),
{
    let mut text: String = String::new();
    text.push('[');
    text.push(' ');
    text.append(label);
    text.push(' ');
    text.push(']');
    text
}

/// Puts a colon and a blank behind a row's label.
pub fn caption(label: &str) -> (text: String)
    ensures
        text@ == captioned(label@),
{
    let mut text: String = label.to_owned();
    text.push(':');
    text.push(' ');
    text
}

/// The margin, in percent, on either side of a list that takes `percent` of
/// the screen and stands in the middle. The halves are rounded down.
pub fn popup_margin(percent: u16) -> (margin: u16)
    requires
        percent <= 100,
    ensures
        margin == (100 - percent) / 2,
{
    (100 - percent) / 2
}

impl App {
    /// The segments of the input line.
    pub fn input_line(&self) -> (segments: Vec<(String, bool)>)
        ensures
            segments.deep_view() == self@.input_line(),
    {
        let mut numeral: String = self.input_format.number_prefix().to_owned();
        numeral.append(self.input.as_str());
        let mut segments: Vec<(String, bool)> = Vec::new();
        segments.push(
            (selector_text(self.data_type.to_short_string().as_str()), self.active_dropdown == 0),
        );
        segments.push(
            (selector_text(self.endianness.to_short_string().as_str()), self.active_dropdown == 1),
        );
        segments.push(
            (
                selector_text(self.input_format.to_short_string().as_str()),
                self.active_dropdown == 2,
            ),
        );
        segments.push((numeral, self.input_mode && !self.dropdown_open));
        segments
    }

    /// The title of the list of the selector in focus.
    pub fn dropdown_title(&self) -> (title: &'static str)
        requires
            self.active_dropdown < 3,
        ensures
            title@ == self@.dropdown_title(),
    {
        if self.active_dropdown == 0 {
            "Data Type"
        } else if self.active_dropdown == 1 {
            "Endianness"
        } else {
            "Input Format"
        }
    }

    /// The entries of the list of the selector in focus.
    pub fn dropdown_entries(&self) -> (entries: Vec<(String, bool)>)
        requires
            self.active_dropdown < 3,
        ensures
            entries.deep_view() == self@.dropdown_entries(),
    {
        let mut entries: Vec<(String, bool)> = Vec::new();
        if self.active_dropdown == 0 {
            let all: Vec<DataType> = DataType::all();
            let mut i: usize = 0;
            while i < all.len()
                invariant
                    i <= all@.len(),
                    entries@.len() == i,
                    forall|j: int|
                        0 <= j < i ==> (#[trigger] entries@[j]).deep_view() == (
                            all@[j].label(),
                            all@[j] == self.data_type,
                        ),
                decreases all@.len() - i,
            {
                entries.push((all[i].to_string(), all[i] == self.data_type));
                i = i + 1;
            }
        } else if self.active_dropdown == 1 {
            let all: Vec<Endianness> = Endianness::all();
            let mut i: usize = 0;
            while i < all.len()
                invariant
                    i <= all@.len(),
                    entries@.len() == i,
                    forall|j: int|
                        0 <= j < i ==> (#[trigger] entries@[j]).deep_view() == (
                            all@[j].label(),
                            all@[j] == self.endianness,
                        ),
                decreases all@.len() - i,
            {
                entries.push((all[i].to_string(), all[i] == self.endianness));
                i = i + 1;
            }
        } else {
            let all: Vec<InputFormat> = InputFormat::all();
            let mut i: usize = 0;
            while i < all.len()
                invariant
                    i <= all@.len(),
                    entries@.len() == i,
                    forall|j: int|
                        0 <= j < i ==> (#[trigger] entries@[j]).deep_view() == (
                            all@[j].label(),
                            all@[j] == self.input_format,
                        ),
                decreases all@.len() - i,
            {
                entries.push((all[i].to_string(), all[i] == self.input_format));
                i = i + 1;
            }
        }
        entries
    }
}

} // verus!
