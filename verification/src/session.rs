//! The state of an inspector session and how a key press changes it.
//!
//! A session is in one of three modes. While a selector's list is open, keys
//! move the highlight or pick an entry. While the numeral is being edited,
//! keys add or remove digits. Otherwise keys move between the selectors, open
//! one of them, or start editing.

use vstd::prelude::*;
use crate::converter::{conversions, get_conversions};
use crate::numeral::{parse_numeral, parsed};
use crate::reinterpret::{float_pattern, float_pattern_of, FloatPattern};
use crate::selection::{DataType, Endianness, InputFormat};

verus! {

/// A key press, reduced to what a session distinguishes.
#[derive(Debug, Clone, Copy, PartialEq, Eq, Structural)]
pub enum Key {
    Esc,
    Enter,
    Up,
    Down,
    Tab,
    Backspace,
    Char(char),
    /// Any key the session has no use for.
    Other,
}

/// What the host does after a key press.
#[derive(Debug, Clone, Copy, PartialEq, Eq, Structural)]
pub enum Flow {
    Continue,
    Quit,
}

/// An inspector session: the numeral typed so far, the three selections, and
/// where the keyboard focus is.
pub struct App {
    /// The digits typed so far, without prefix.
    pub input: String,
    /// Whether key presses edit the numeral.
    pub input_mode: bool,
    /// Whether the list of the active selector is open.
    pub dropdown_open: bool,
    /// The selector in focus: 0 numeric type, 1 byte order, 2 base.
    pub active_dropdown: usize,
    /// The highlighted entry of the open list; 0 while no list is open.
    pub dropdown_index: usize,
    pub data_type: DataType,
    pub endianness: Endianness,
    pub input_format: InputFormat,
}

/// The mathematical content of an [`App`].
pub struct AppState {
    pub input: Seq<char>,
    pub input_mode: bool,
    pub dropdown_open: bool,
    pub active_dropdown: int,
    pub dropdown_index: int,
    pub data_type: DataType,
    pub endianness: Endianness,
    pub input_format: InputFormat,
}

/// Number of entries in the list of selector `dropdown`; 0 where there is no
/// such selector.
pub open spec fn option_count(dropdown: int) -> int {
    if dropdown == 0 {
        DataType::catalogue().len() as int
    } else if dropdown == 1 {
        Endianness::catalogue().len() as int
    } else if dropdown == 2 {
        InputFormat::catalogue().len() as int
    } else {
        0
    }
}

impl AppState {
    /// The state of a fresh session.
    pub open spec fn initial() -> AppState {
        AppState {
            input: Seq::empty(),
            input_mode: false,
            dropdown_open: false,
            active_dropdown: 0,
            dropdown_index: 0,
            data_type: DataType::U32,
            endianness: Endianness::Little,
            input_format: InputFormat::Decimal,
        }
    }

    /// The focus is on one of the three selectors, and the highlight is on an
    /// entry of the open list, or at the top while no list is open.
    pub open spec fn wf(self) -> bool {
        &&& 0 <= self.active_dropdown < 3
        &&& if self.dropdown_open {
            0 <= self.dropdown_index < option_count(self.active_dropdown)
        } else {
            self.dropdown_index == 0
        }
    }

    /// Whether the highlighted entry can be picked: it exists in the list
    /// of the active selector.
    pub open spec fn pickable(self) -> bool {
        0 <= self.active_dropdown < 3 ==> 0 <= self.dropdown_index < option_count(
            self.active_dropdown,
        )
    }

    /// The state with the highlighted entry made the selection of the active
    /// selector.
    pub open spec fn picked(self) -> AppState {
        if self.active_dropdown == 0 {
            AppState { data_type: DataType::catalogue()[self.dropdown_index], ..self }
        } else if self.active_dropdown == 1 {
            AppState { endianness: Endianness::catalogue()[self.dropdown_index], ..self }
        } else if self.active_dropdown == 2 {
            AppState { input_format: InputFormat::catalogue()[self.dropdown_index], ..self }
        } else {
            self
        }
    }

    /// The state with the list closed and the highlight back at the top.
    pub open spec fn closed(self) -> AppState {
        AppState { dropdown_open: false, dropdown_index: 0, ..self }
    }

    /// The state with selector `dropdown` in focus and its list open.
    pub open spec fn opened(self, dropdown: int) -> AppState {
        AppState { active_dropdown: dropdown, dropdown_open: true, ..self }
    }

    /// What a key does while a list is open: `Esc` closes it, `Enter` picks the
    /// highlighted entry and closes it, `Up` or `k` and `Down` or `j` move the
    /// highlight and stop at either end.
    pub open spec fn after_dropdown_key(self, key: Key) -> AppState {
        match key {
            Key::Esc => self.closed(),
            Key::Enter => self.picked().closed(),
            Key::Up | Key::Char('k') => if self.dropdown_index > 0 {
                AppState { dropdown_index: self.dropdown_index - 1, ..self }
            } else {
                self
            },
            Key::Down | Key::Char('j') => if self.dropdown_index + 1 < option_count(
                self.active_dropdown,
            ) {
                AppState { dropdown_index: self.dropdown_index + 1, ..self }
            } else {
                self
            },
            _ => self,
        }
    }

    /// What a key does while the numeral is edited: `Esc` ends editing, a
    /// digit of the selected base is appended, `Backspace` removes the last
    /// digit. Characters that are no digit of the base are dropped.
    pub open spec fn after_text_key(self, key: Key) -> AppState {
        match key {
            Key::Esc => AppState { input_mode: false, ..self },
            Key::Char(c) => if self.input_format.accepts(c) {
                AppState { input: self.input.push(c), ..self }
            } else {
                self
            },
            Key::Backspace => if self.input.len() > 0 {
                AppState { input: self.input.drop_last(), ..self }
            } else {
                self
            },
            _ => self,
        }
    }

    /// What a key does otherwise: `1`, `2`, `3` (or `m`, `,`, `.`) open a
    /// selector, `Tab` moves to the next selector and opens it, `l` and `h`
    /// move the focus right and left, wrapping round, `Enter` opens the
    /// selector in focus, `i` starts editing.
    pub open spec fn after_navigation_key(self, key: Key) -> AppState {
        match key {
            Key::Char('1') | Key::Char('m') => self.opened(0),
            Key::Char('2') | Key::Char(',') => self.opened(1),
            Key::Char('3') | Key::Char('.') => self.opened(2),
            Key::Char('i') => AppState { input_mode: true, ..self },
            Key::Tab => self.opened((self.active_dropdown + 1) % 3),
            Key::Char('l') => AppState {
                active_dropdown: (self.active_dropdown + 1) % 3,
                ..self
            },
            Key::Char('h') => AppState {
                active_dropdown: if self.active_dropdown == 0 {
                    2
                } else {
                    (self.active_dropdown - 1) % 3
                },
                ..self
            },
            Key::Enter => AppState { dropdown_open: true, ..self },
            _ => self,
        }
    }

    /// The magnitude that the typed numeral denotes in the selected base, if
    /// something is typed, all of it is digits of the base, and the value fits
    /// in 128 bits.
    pub open spec fn magnitude(self) -> Option<u128> {
        if self.input.len() == 0 {
            None
        } else {
            match parsed(self.input, self.input_format) {
                Ok(value) => Some(value),
                Err(_) => None,
            }
        }
    }

    /// The rows to show: one row that asks for input while nothing is typed,
    /// one row that tells of a failure while the typed text is no numeral
    /// that fits, and otherwise the conversions of the magnitude.
    pub open spec fn results(self, decoded: Seq<char>) -> Seq<(Seq<char>, Seq<char>)> {
        if self.input.len() == 0 {
            seq![("No input"@, "Enter a value to see conversions"@)]
        } else {
            match self.magnitude() {
                Some(value) => conversions(value, self.data_type, decoded),
                None => seq![("Error"@, "Failed to parse input"@)],
            }
        }
    }

    /// The floating-point pattern that the rows need decoded, if any.
    pub open spec fn pending_pattern(self) -> Option<FloatPattern> {
        match self.magnitude() {
            Some(value) => float_pattern_of(value, self.data_type),
            None => None,
        }
    }

    /// What a key does, by the mode the session is in. An open list takes
    /// precedence over editing.
    pub open spec fn after_key(self, key: Key) -> AppState {
        if self.dropdown_open {
            self.after_dropdown_key(key)
        } else if self.input_mode {
            self.after_text_key(key)
        } else {
            self.after_navigation_key(key)
        }
    }
}

impl View for App {
    type V = AppState;

    open spec fn view(&self) -> AppState {
        AppState {
            input: self.input@,
            input_mode: self.input_mode,
            dropdown_open: self.dropdown_open,
            active_dropdown: self.active_dropdown as int,
            dropdown_index: self.dropdown_index as int,
            data_type: self.data_type,
            endianness: self.endianness,
            input_format: self.input_format,
        }
    }
}

impl App {
    /// See [`AppState::wf`].
    pub open spec fn wf(&self) -> bool {
        self@.wf()
    }

    /// A fresh session: nothing typed, no list open, a 32-bit unsigned
    /// little-endian reading of a decimal numeral selected.
    pub fn new() -> (app: App)
        ensures
            app@ == AppState::initial(),
            app.wf(),
    {
        App {
            input: String::new(),
            input_mode: false,
            dropdown_open: false,
            active_dropdown: 0,
            dropdown_index: 0,
            data_type: DataType::U32,
            endianness: Endianness::Little,
            input_format: InputFormat::Decimal,
        }
    }

    /// Whether the session is well formed. A session made by [`App::new`] and
    /// changed only through the key handlers always is.
    pub fn is_well_formed(&self) -> (ok: bool)
        ensures
            ok == self.wf(),
    {
        if self.active_dropdown >= 3 {
            return false;
        }
        if self.dropdown_open {
            let count: usize = if self.active_dropdown == 0 {
                12
            } else if self.active_dropdown == 1 {
                2
            } else {
                4
            };
            self.dropdown_index < count
        } else {
            self.dropdown_index == 0
        }
    }

    /// Handles one key press in the mode the session is in.
    pub fn handle_input(&mut self, key: Key)
        requires
            old(self).wf(),
        ensures
            final(self)@ == old(self)@.after_key(key),
            final(self).wf(),
    {
        if self.dropdown_open {
            self.handle_dropdown_input(key);
        } else if self.input_mode {
            self.handle_text_input(key);
        } else {
            self.handle_navigation_input(key);
        }
    }

    /// Handles one key press as the host's loop sees it: `q` ends the session
    /// and leaves it as it is; every other key goes to [`App::handle_input`].
    pub fn advance(&mut self, key: Key) -> (flow: Flow)
        requires
            old(self).wf(),
        ensures
            key == Key::Char('q') ==> flow == Flow::Quit && final(self)@ == old(self)@,
            key != Key::Char('q') ==> flow == Flow::Continue && final(self)@ == old(
                self,
            )@.after_key(key),
            final(self).wf(),
    {
        match key {
            Key::Char('q') => Flow::Quit,
            _ => {
                self.handle_input(key);
                Flow::Continue
            },
        }
    }

    /// Handles one key press while a list is open.
    pub fn handle_dropdown_input(&mut self, key: Key)
        requires
            old(self).wf(),
            old(self).dropdown_open,
        ensures
            final(self)@ == old(self)@.after_dropdown_key(key),
            final(self).wf(),
    {
        match key {
            Key::Esc => {
                self.dropdown_open = false;
                self.dropdown_index = 0;
            },
            Key::Enter => {
                self.select_dropdown_item();
                self.dropdown_open = false;
                self.dropdown_index = 0;
            },
            Key::Up | Key::Char('k') => {
                if self.dropdown_index > 0 {
                    self.dropdown_index = self.dropdown_index - 1;
                }
            },
            Key::Down | Key::Char('j') => {
                let max_index: usize = match self.active_dropdown {
                    0 => DataType::all().len() - 1,
                    1 => Endianness::all().len() - 1,
                    2 => InputFormat::all().len() - 1,
                    _ => 0,
                };
                if self.dropdown_index < max_index {
                    self.dropdown_index = self.dropdown_index + 1;
                }
            },
            _ => {},
        }
    }

    /// Handles one key press while the numeral is edited.
    pub fn handle_text_input(&mut self, key: Key)
        requires
            old(self).wf(),
        ensures
            final(self)@ == old(self)@.after_text_key(key),
            final(self).wf(),
    {
        match key {
            Key::Esc => {
                self.input_mode = false;
            },
            Key::Char(c) => {
                if self.input_format.is_valid_char(c) {
                    self.input.push(c);
                }
            },
            Key::Backspace => {
                self.input.pop();
            },
            _ => {},
        }
    }

    /// Handles one key press while no list is open and the numeral is not
    /// edited.
    pub fn handle_navigation_input(&mut self, key: Key)
        requires
            old(self).wf(),
            !old(self).dropdown_open,
        ensures
            final(self)@ == old(self)@.after_navigation_key(key),
            final(self).wf(),
    {
        match key {
            Key::Char('1') | Key::Char('m') => {
                self.active_dropdown = 0;
                self.dropdown_open = true;
            },
            Key::Char('2') | Key::Char(',') => {
                self.active_dropdown = 1;
                self.dropdown_open = true;
            },
            Key::Char('3') | Key::Char('.') => {
                self.active_dropdown = 2;
                self.dropdown_open = true;
            },
            Key::Char('i') => {
                self.input_mode = true;
            },
            Key::Tab => {
                self.active_dropdown = (self.active_dropdown + 1) % 3;
                self.dropdown_open = true;
            },
            Key::Char('l') => {
                self.active_dropdown = (self.active_dropdown + 1) % 3;
            },
            Key::Char('h') => {
                if self.active_dropdown == 0 {
                    self.active_dropdown = 2;
                } else {
                    self.active_dropdown = (self.active_dropdown - 1) % 3;
                }
            },
            Key::Enter => {
                self.dropdown_open = true;
            },
            _ => {},
        }
    }

    /// The magnitude of the typed numeral, or `None` while nothing is typed or
    /// the text is no numeral of the selected base that fits in 128 bits.
    pub fn parse_input(&self) -> (value: Option<u128>)
        ensures
            value == self@.magnitude(),
    {
        if self.input.as_str().is_empty() {
            return None;
        }
        match parse_numeral(self.input.as_str(), self.input_format) {
            Ok(value) => Some(value),
            Err(_) => None,
        }
    }

    /// The floating-point pattern whose decimal text
    /// [`App::get_conversion_results`] will show, or `None` if it will show
    /// none.
    pub fn float_pattern(&self) -> (pattern: Option<FloatPattern>)
        ensures
            pattern == self@.pending_pattern(),
    {
        match self.parse_input() {
            Some(value) => float_pattern(value, self.data_type),
            None => None,
        }
    }

    /// The rows to show for the session as it stands. `decoded` is the decimal
    /// text of the pattern that [`App::float_pattern`] names; it is read only
    /// when there is such a pattern.
    pub fn get_conversion_results(&self, decoded: &str) -> (rows: Vec<(String, String)>)
        ensures
            rows.deep_view() == self@.results(decoded@),
    {
        if self.input.as_str().is_empty() {
            let mut rows: Vec<(String, String)> = Vec::new();
            rows.push(("No input".to_owned(), "Enter a value to see conversions".to_owned()));
            return rows;
        }
        let value: u128 = match self.parse_input() {
            Some(v) => v,
            None => {
                let mut rows: Vec<(String, String)> = Vec::new();
                rows.push(("Error".to_owned(), "Failed to parse input".to_owned()));
                return rows;
            },
        };
        get_conversions(value, self.data_type, self.endianness, decoded)
    }

    /// Makes the highlighted entry the selection of the active selector.
    pub fn select_dropdown_item(&mut self)
        requires
            old(self)@.pickable(),
        ensures
            final(self)@ == old(self)@.picked(),
    {
        match self.active_dropdown {
            0 => {
                self.data_type = DataType::all()[self.dropdown_index];
            },
            1 => {
                self.endianness = Endianness::all()[self.dropdown_index];
            },
            2 => {
                self.input_format = InputFormat::all()[self.dropdown_index];
            },
            _ => {},
        }
    }
}

} // verus!
