//! Terminal inputs, such as keypresses, clicks and resizes.

use crate::vec2::Vec2;
use core::ops::{BitOr, BitOrAssign};
use vstd::prelude::*;

verus! {

/// A user input on the terminal.
#[derive(Debug, Clone, Copy, Hash, PartialEq, Eq, Structural)]
pub enum Input {
    /// A key was pressed.
    Key(KeyPress),
    /// A mouse button was pressed, released or dragged, or the mouse wheel was scrolled.
    Mouse(Mouse),
}

impl Input {
    /// The modifiers that were active when the input occurred.
    pub open spec fn held(self) -> Modifiers {
        match self {
            Input::Key(press) => press.modifiers,
            Input::Mouse(mouse) => mouse.modifiers,
        }
    }

    /// Get the key press of the input.
    #[must_use]
    pub fn key(self) -> (r: Option<KeyPress>)
        ensures
            r == (match self {
                Input::Key(press) => Some(press),
                Input::Mouse(_) => None,
            }),
    {
        match self {
            Self::Key(press) => Some(press),
            Self::Mouse(_) => None,
        }
    }

    /// Get the mouse input of the input.
    #[must_use]
    pub fn mouse(self) -> (r: Option<Mouse>)
        ensures
            r == (match self {
                Input::Key(_) => None,
                Input::Mouse(mouse) => Some(mouse),
            }),
    {
        match self {
            Self::Key(_) => None,
            Self::Mouse(mouse) => Some(mouse),
        }
    }

    /// Get the modifiers of the input.
    #[must_use]
    pub fn modifiers(&self) -> (m: Modifiers)
        ensures
            m == self.held(),
    {
        match self {
            Self::Key(press) => press.modifiers,
            Self::Mouse(mouse) => mouse.modifiers,
        }
    }
}

impl vstd::std_specs::convert::FromSpecImpl<KeyPress> for Input {
    open spec fn obeys_from_spec() -> bool {
        true
    }

    open spec fn from_spec(input: KeyPress) -> Self {
        Input::Key(input)
    }
}

impl From<KeyPress> for Input {
    /// The key press as an input.
    fn from(input: KeyPress) -> (r: Self) {
        Self::Key(input)
    }
}

impl vstd::std_specs::convert::FromSpecImpl<Mouse> for Input {
    open spec fn obeys_from_spec() -> bool {
        true
    }

    open spec fn from_spec(input: Mouse) -> Self {
        Input::Mouse(input)
    }
}

impl From<Mouse> for Input {
    /// The mouse input as an input.
    fn from(input: Mouse) -> (r: Self) {
        Self::Mouse(input)
    }
}

/// A key was pressed.
#[derive(Debug, Clone, Copy, Hash, PartialEq, Eq, Structural)]
pub struct KeyPress {
    /// Which key was pressed.
    pub key: Key,
    /// The modifiers active while the key was pressed.
    pub modifiers: Modifiers,
}

/// Whether the character is one of the ASCII capital letters.
pub open spec fn is_ascii_capital(c: char) -> bool {
    0x41 <= c as u32 <= 0x5A
}

/// The character with an ASCII capital letter replaced by its small letter.
pub open spec fn ascii_lower(c: char) -> char {
    if is_ascii_capital(c) {
        ((c as u32) + 32) as char
    } else {
        c
    }
}

/// `char::to_ascii_lowercase` maps the letters 'A' to 'Z' to 'a' to 'z' and leaves every
/// other character as it is.
pub assume_specification[ char::to_ascii_lowercase ](c: &char) -> (r: char)
    ensures
        r == ascii_lower(*c),
;

/// `char::is_ascii_uppercase` holds of the letters 'A' to 'Z' and of nothing else.
pub assume_specification[ char::is_ascii_uppercase ](c: &char) -> (r: bool)
    ensures
        r == is_ascii_capital(*c),
;

impl KeyPress {
    /// The press of the key that types the character: the small letter with shift held for
    /// an ASCII capital, the character itself with nothing held otherwise.
    pub open spec fn typing(c: char) -> KeyPress {
        KeyPress {
            key: Key::Char(ascii_lower(c)),
            modifiers: Modifiers { shift: is_ascii_capital(c), control: false, alt: false },
        }
    }
}

/// Whether `char::is_uppercase` of std holds of the character: whether it is a capital
/// letter, of whatever alphabet.
pub uninterp spec fn is_upper(c: char) -> bool;

/// `char::is_uppercase` of std.
pub assume_specification[ char::is_uppercase ](c: char) -> (r: bool)
    ensures
        r == is_upper(c),
;

impl KeyPress {
    /// The press that a terminal reports as the character `c` with `modifiers` held: the
    /// key of the character without its ASCII capital, with shift held where the
    /// character is a capital letter.
    pub fn typed(c: char, modifiers: Modifiers) -> (press: KeyPress)
        ensures
            press == (KeyPress {
                key: Key::Char(ascii_lower(c)),
                modifiers: Modifiers { shift: modifiers.shift || is_upper(c), ..modifiers },
            }),
    {
        KeyPress {
            key: Key::Char(c.to_ascii_lowercase()),
            modifiers: Modifiers { shift: modifiers.shift || c.is_uppercase(), ..modifiers },
        }
    }

    /// The press that a terminal reports as a tab backwards with `modifiers` held: the tab
    /// key with shift held.
    pub fn back_tab(modifiers: Modifiers) -> (press: KeyPress)
        ensures
            press == (KeyPress {
                key: Key::Char('\t'),
                modifiers: Modifiers { shift: true, ..modifiers },
            }),
    {
        KeyPress { key: Key::Char('\t'), modifiers: Modifiers { shift: true, ..modifiers } }
    }
}

impl vstd::std_specs::convert::FromSpecImpl<char> for KeyPress {
    open spec fn obeys_from_spec() -> bool {
        true
    }

    open spec fn from_spec(key: char) -> Self {
        KeyPress::typing(key)
    }
}

impl From<char> for KeyPress {
    /// The press of the key that types the character.
    fn from(key: char) -> (r: Self) {
        Self {
            key: Key::Char(key.to_ascii_lowercase()),
            modifiers: Modifiers { shift: key.is_ascii_uppercase(), control: false, alt: false },
        }
    }
}

/// Any key.
///
/// The enter/return, tab and delete keys are mapped to their respective ASCII characters.
#[derive(Debug, Clone, Copy, Hash, PartialEq, Eq, Structural)]
pub enum Key {
    /// The backspace key.
    Backspace,
    /// The left arrow.
    Left,
    /// The right arrow.
    Right,
    /// The up arrow.
    Up,
    /// The down arrow.
    Down,
    /// The Home key,
    Home,
    /// The End key.
    End,
    /// The page up key.
    PageUp,
    /// The page down key.
    PageDown,
    /// The insert key.
    Insert,
    /// The escape key.
    Escape,
    /// A function key (e.g. F(5) is F5).
    F(u8),
    /// A key which maps to a character. This character will never be uppercase.
    Char(char),
}

/// A mouse button was pressed, released or dragged, or the mouse wheel was scrolled.
#[derive(Debug, Clone, Copy, Hash, PartialEq, Eq, Structural)]
pub struct Mouse {
    /// What kind of mouse input it is.
    pub kind: MouseKind,
    /// Where the input occurred, zero-indexed.
    pub at: Vec2<u16>,
    /// The size of the output that captured the mouse input.
    pub size: Vec2<u16>,
    /// The modifiers active while the input occurred. Only some terminals report this.
    pub modifiers: Modifiers,
}

/// A kind of mouse input.
#[derive(Debug, Clone, Copy, Hash, PartialEq, Eq, Structural)]
pub enum MouseKind {
    /// A mouse button was pressed.
    Press(MouseButton),
    /// A mouse button was released.
    Release(MouseButton),
    /// The mouse was moved with a button held down.
    Drag(MouseButton),
    /// The mouse was moved with no buttons held down.
    Move,
    /// The scroll wheel was scrolled down.
    ScrollDown,
    /// The scroll wheel was scrolled up.
    ScrollUp,
}

/// A mouse button.
#[derive(Debug, Clone, Copy, Hash, PartialEq, Eq, Structural)]
pub enum MouseButton {
    /// The left mouse button.
    Left,
    /// The middle mouse button; usually the scroll wheel.
    Middle,
    /// The right mouse button.
    Right,
}

/// Key modifiers.
#[derive(Debug, Clone, Copy, Hash, PartialEq, Eq, Structural)]
pub struct Modifiers {
    /// The shift key.
    pub shift: bool,
    /// The control key.
    pub control: bool,
    /// The alt key.
    pub alt: bool,
}

impl Modifiers {
    /// Only shift.
    pub fn shift() -> (m: Self)
        ensures
            m == (Modifiers { shift: true, control: false, alt: false }),
    {
        Self { shift: true, control: false, alt: false }
    }

    /// Only control.
    pub fn control() -> (m: Self)
        ensures
            m == (Modifiers { shift: false, control: true, alt: false }),
    {
        Self { shift: false, control: true, alt: false }
    }

    /// Only alt.
    pub fn alt() -> (m: Self)
        ensures
            m == (Modifiers { shift: false, control: false, alt: true }),
    {
        Self { shift: false, control: false, alt: true }
    }

    /// No modifier at all.
    pub open spec fn none() -> Modifiers {
        Modifiers { shift: false, control: false, alt: false }
    }

    /// The modifiers held in either of the two.
    pub open spec fn union(self, rhs: Modifiers) -> Modifiers {
        Modifiers {
            shift: self.shift || rhs.shift,
            control: self.control || rhs.control,
            alt: self.alt || rhs.alt,
        }
    }

    /// Returns `true` if no modifiers held down.
    #[must_use]
    pub fn are_none(self) -> (r: bool)
        ensures
            r == (self == Modifiers::none()),
    {
        !self.shift && !self.control && !self.alt
    }
}

impl Default for Modifiers {
    /// No modifier at all.
    fn default() -> (m: Self)
        ensures
            m == Modifiers::none(),
    {
        Self { shift: false, control: false, alt: false }
    }
}

impl vstd::std_specs::ops::BitOrSpecImpl for Modifiers {
    open spec fn obeys_bitor_spec() -> bool {
        true
    }

    open spec fn bitor_req(self, rhs: Self) -> bool {
        true
    }

    open spec fn bitor_spec(self, rhs: Self) -> Self {
        self.union(rhs)
    }
}

impl BitOr for Modifiers {
    type Output = Self;

    /// The modifiers held in either of the two.
    fn bitor(self, rhs: Self) -> (m: Self) {
        Self {
            shift: self.shift || rhs.shift,
            control: self.control || rhs.control,
            alt: self.alt || rhs.alt,
        }
    }
}

impl BitOrAssign for Modifiers {
    /// Adds the modifiers held in `rhs`.
    fn bitor_assign(&mut self, rhs: Self)
        ensures
            *final(self) == old(self).union(rhs),
    {
        self.shift = self.shift || rhs.shift;
        self.control = self.control || rhs.control;
        self.alt = self.alt || rhs.alt;
    }
}

/// A pattern that matches inputs.
///
/// This is implemented for:
/// - Functions that take an input and return a boolean.
/// - [`Input`], [`KeyPress`], [`Mouse`] and [`char`] which just perform an equality check.
/// - [`Key`], which does not allow any modifiers to be held down.
/// - [`MouseKind`], which can occur at any position without modifiers.
/// - Tuples, which detect any one of the inputs occurring.
pub trait Pattern {
    /// Whether the pattern can be asked about the input.
    open spec fn admits(&self, input: Input) -> bool {
        true
    }

    /// Whether `matched` is an answer that the pattern may give for the input.
    open spec fn accepts(&self, input: Input, matched: bool) -> bool {
        true
    }

    /// Whether the pattern matches this input.
    fn matches(&self, input: Input) -> (r: bool)
        requires
            self.admits(input),
        ensures
            self.accepts(input, r),
    ;
}

impl<F: Fn(Input) -> bool> Pattern for F {
    open spec fn admits(&self, input: Input) -> bool {
        self.requires((input,))
    }

    open spec fn accepts(&self, input: Input, matched: bool) -> bool {
        self.ensures((input,), matched)
    }

    fn matches(&self, input: Input) -> (r: bool) {
        (self)(input)
    }
}

impl Pattern for Input {
    open spec fn admits(&self, input: Input) -> bool {
        true
    }

    open spec fn accepts(&self, input: Input, matched: bool) -> bool {
        matched == (*self == input)
    }

    fn matches(&self, input: Input) -> (r: bool) {
        *self == input
    }
}

impl Pattern for KeyPress {
    open spec fn admits(&self, input: Input) -> bool {
        true
    }

    open spec fn accepts(&self, input: Input, matched: bool) -> bool {
        matched == (input == Input::Key(*self))
    }

    fn matches(&self, input: Input) -> (r: bool) {
        match input {
            Input::Key(press) => press == *self,
            Input::Mouse(_) => false,
        }
    }
}

impl Pattern for Mouse {
    open spec fn admits(&self, input: Input) -> bool {
        true
    }

    open spec fn accepts(&self, input: Input, matched: bool) -> bool {
        matched == (input == Input::Mouse(*self))
    }

    fn matches(&self, input: Input) -> (r: bool) {
        match input {
            Input::Key(_) => false,
            Input::Mouse(mouse) => mouse == *self,
        }
    }
}

impl Pattern for char {
    open spec fn admits(&self, input: Input) -> bool {
        true
    }

    open spec fn accepts(&self, input: Input, matched: bool) -> bool {
        matched == (input == Input::Key(KeyPress::typing(*self)))
    }

    fn matches(&self, input: Input) -> (r: bool) {
        let press = KeyPress::from(*self);
        match input {
            Input::Key(other) => other == press,
            Input::Mouse(_) => false,
        }
    }
}

impl Pattern for Key {
    open spec fn admits(&self, input: Input) -> bool {
        true
    }

    open spec fn accepts(&self, input: Input, matched: bool) -> bool {
        matched == (input == Input::Key(KeyPress { key: *self, modifiers: Modifiers::none() }))
    }

    fn matches(&self, input: Input) -> (r: bool) {
        match input {
            Input::Key(press) => press.key == *self && press.modifiers.are_none(),
            Input::Mouse(_) => false,
        }
    }
}

impl Pattern for MouseKind {
    open spec fn admits(&self, input: Input) -> bool {
        true
    }

    open spec fn accepts(&self, input: Input, matched: bool) -> bool {
        matched == (input matches Input::Mouse(mouse) && mouse.kind == *self && mouse.modifiers
                == Modifiers::none())
    }

    fn matches(&self, input: Input) -> (r: bool) {
        match input {
            Input::Key(_) => false,
            Input::Mouse(mouse) => mouse.kind == *self && mouse.modifiers.are_none(),
        }
    }
}


impl vstd::std_specs::cmp::PartialEqSpecImpl<KeyPress> for Input {
    open spec fn obeys_eq_spec() -> bool {
        true
    }

    open spec fn eq_spec(&self, other: &KeyPress) -> bool {
        *self == Input::Key(*other)
    }
}

impl PartialEq<KeyPress> for Input {
    /// An input equals a key press where it is that key press.
    fn eq(&self, other: &KeyPress) -> (r: bool) {
        match self {
            Input::Key(press) => *press == *other,
            Input::Mouse(_) => false,
        }
    }
}

impl vstd::std_specs::cmp::PartialEqSpecImpl<Input> for KeyPress {
    open spec fn obeys_eq_spec() -> bool {
        true
    }

    open spec fn eq_spec(&self, other: &Input) -> bool {
        *other == Input::Key(*self)
    }
}

impl PartialEq<Input> for KeyPress {
    /// A key press equals an input where the input is that key press.
    fn eq(&self, other: &Input) -> (r: bool) {
        match other {
            Input::Key(press) => *press == *self,
            Input::Mouse(_) => false,
        }
    }
}

impl vstd::std_specs::cmp::PartialEqSpecImpl<Mouse> for Input {
    open spec fn obeys_eq_spec() -> bool {
        true
    }

    open spec fn eq_spec(&self, other: &Mouse) -> bool {
        *self == Input::Mouse(*other)
    }
}

impl PartialEq<Mouse> for Input {
    /// An input equals a mouse input where it is that mouse input.
    fn eq(&self, other: &Mouse) -> (r: bool) {
        match self {
            Input::Key(_) => false,
            Input::Mouse(mouse) => *mouse == *other,
        }
    }
}

impl vstd::std_specs::cmp::PartialEqSpecImpl<Input> for Mouse {
    open spec fn obeys_eq_spec() -> bool {
        true
    }

    open spec fn eq_spec(&self, other: &Input) -> bool {
        *other == Input::Mouse(*self)
    }
}

impl PartialEq<Input> for Mouse {
    /// A mouse input equals an input where the input is that mouse input.
    fn eq(&self, other: &Input) -> (r: bool) {
        match other {
            Input::Key(_) => false,
            Input::Mouse(mouse) => *mouse == *self,
        }
    }
}

impl vstd::std_specs::cmp::PartialEqSpecImpl<char> for KeyPress {
    open spec fn obeys_eq_spec() -> bool {
        true
    }

    open spec fn eq_spec(&self, other: &char) -> bool {
        *self == KeyPress::typing(*other)
    }
}

impl PartialEq<char> for KeyPress {
    /// A key press equals a character where it is the press that types the character.
    fn eq(&self, other: &char) -> (r: bool) {
        *self == KeyPress::from(*other)
    }
}

impl vstd::std_specs::cmp::PartialEqSpecImpl<KeyPress> for char {
    open spec fn obeys_eq_spec() -> bool {
        true
    }

    open spec fn eq_spec(&self, other: &KeyPress) -> bool {
        *other == KeyPress::typing(*self)
    }
}

impl PartialEq<KeyPress> for char {
    /// A character equals a key press where the key press types the character.
    fn eq(&self, other: &KeyPress) -> (r: bool) {
        *other == KeyPress::from(*self)
    }
}

impl vstd::std_specs::cmp::PartialEqSpecImpl<char> for Input {
    open spec fn obeys_eq_spec() -> bool {
        true
    }

    open spec fn eq_spec(&self, other: &char) -> bool {
        *self == Input::Key(KeyPress::typing(*other))
    }
}

impl PartialEq<char> for Input {
    /// An input equals a character where it is the key press that types the character.
    fn eq(&self, other: &char) -> (r: bool) {
        match self {
            Input::Key(press) => *press == KeyPress::from(*other),
            Input::Mouse(_) => false,
        }
    }
}

impl vstd::std_specs::cmp::PartialEqSpecImpl<Input> for char {
    open spec fn obeys_eq_spec() -> bool {
        true
    }

    open spec fn eq_spec(&self, other: &Input) -> bool {
        *other == Input::Key(KeyPress::typing(*self))
    }
}

impl PartialEq<Input> for char {
    /// A character equals an input where the input is the key press that types it.
    fn eq(&self, other: &Input) -> (r: bool) {
        match other {
            Input::Key(press) => *press == KeyPress::from(*self),
            Input::Mouse(_) => false,
        }
    }
}

/// What a pattern with other patterns behind it can answer: that it matches, or, where
/// it does not match, what the patterns behind it answer.
pub open spec fn or_else<P: Pattern>(first: &P, input: Input, matched: bool, others: bool) -> bool {
    first.accepts(input, true) && matched || first.accepts(input, false) && others
}

impl Pattern for () {
    open spec fn admits(&self, input: Input) -> bool {
        true
    }

    /// No pattern, no match.
    open spec fn accepts(&self, input: Input, matched: bool) -> bool {
        !matched
    }

    fn matches(&self, input: Input) -> (r: bool) {
        false
    }
}

impl<A: Pattern> Pattern for (A,) {
    open spec fn admits(&self, input: Input) -> bool {
        self.0.admits(input)
    }

    /// The patterns are asked in order, up to the first that matches.
    open spec fn accepts(&self, input: Input, matched: bool) -> bool {
        self.0.accepts(input, matched)
    }

    fn matches(&self, input: Input) -> (r: bool) {
        self.0.matches(input)
    }
}

impl<A: Pattern, B: Pattern> Pattern for (A, B) {
    open spec fn admits(&self, input: Input) -> bool {
        self.0.admits(input) && self.1.admits(input)
    }

    /// The patterns are asked in order, up to the first that matches.
    open spec fn accepts(&self, input: Input, matched: bool) -> bool {
        or_else(&self.0, input, matched,
        self.1.accepts(input, matched))
    }

    fn matches(&self, input: Input) -> (r: bool) {
        if self.0.matches(input) {
            return true;
        }
        self.1.matches(input)
    }
}

impl<A: Pattern, B: Pattern, C: Pattern> Pattern for (A, B, C) {
    open spec fn admits(&self, input: Input) -> bool {
        self.0.admits(input) && self.1.admits(input) && self.2.admits(input)
    }

    /// The patterns are asked in order, up to the first that matches.
    open spec fn accepts(&self, input: Input, matched: bool) -> bool {
        or_else(&self.0, input, matched,
        or_else(&self.1, input, matched,
        self.2.accepts(input, matched)))
    }

    fn matches(&self, input: Input) -> (r: bool) {
        if self.0.matches(input) {
            return true;
        }
        if self.1.matches(input) {
            return true;
        }
        self.2.matches(input)
    }
}

impl<A: Pattern, B: Pattern, C: Pattern, D: Pattern> Pattern for (A, B, C, D) {
    open spec fn admits(&self, input: Input) -> bool {
        self.0.admits(input) && self.1.admits(input) && self.2.admits(input) && self.3.admits(input)
    }

    /// The patterns are asked in order, up to the first that matches.
    open spec fn accepts(&self, input: Input, matched: bool) -> bool {
        or_else(&self.0, input, matched,
        or_else(&self.1, input, matched,
        or_else(&self.2, input, matched,
        self.3.accepts(input, matched))))
    }

    fn matches(&self, input: Input) -> (r: bool) {
        if self.0.matches(input) {
            return true;
        }
        if self.1.matches(input) {
            return true;
        }
        if self.2.matches(input) {
            return true;
        }
        self.3.matches(input)
    }
}

impl<A: Pattern, B: Pattern, C: Pattern, D: Pattern, E: Pattern> Pattern for (A, B, C, D, E) {
    open spec fn admits(&self, input: Input) -> bool {
        self.0.admits(input) && self.1.admits(input) && self.2.admits(input)
            && self.3.admits(input) && self.4.admits(input)
    }

    /// The patterns are asked in order, up to the first that matches.
    open spec fn accepts(&self, input: Input, matched: bool) -> bool {
        or_else(&self.0, input, matched,
        or_else(&self.1, input, matched,
        or_else(&self.2, input, matched,
        or_else(&self.3, input, matched,
        self.4.accepts(input, matched)))))
    }

    fn matches(&self, input: Input) -> (r: bool) {
        if self.0.matches(input) {
            return true;
        }
        if self.1.matches(input) {
            return true;
        }
        if self.2.matches(input) {
            return true;
        }
        if self.3.matches(input) {
            return true;
        }
        self.4.matches(input)
    }
}

impl<
    A: Pattern,
    B: Pattern,
    C: Pattern,
    D: Pattern,
    E: Pattern,
    F: Pattern,
> Pattern for (A, B, C, D, E, F) {
    open spec fn admits(&self, input: Input) -> bool {
        self.0.admits(input) && self.1.admits(input) && self.2.admits(input)
            && self.3.admits(input) && self.4.admits(input) && self.5.admits(input)
    }

    /// The patterns are asked in order, up to the first that matches.
    open spec fn accepts(&self, input: Input, matched: bool) -> bool {
        or_else(&self.0, input, matched,
        or_else(&self.1, input, matched,
        or_else(&self.2, input, matched,
        or_else(&self.3, input, matched,
        or_else(&self.4, input, matched,
        self.5.accepts(input, matched))))))
    }

    fn matches(&self, input: Input) -> (r: bool) {
        if self.0.matches(input) {
            return true;
        }
        if self.1.matches(input) {
            return true;
        }
        if self.2.matches(input) {
            return true;
        }
        if self.3.matches(input) {
            return true;
        }
        if self.4.matches(input) {
            return true;
        }
        self.5.matches(input)
    }
}

impl<
    A: Pattern,
    B: Pattern,
    C: Pattern,
    D: Pattern,
    E: Pattern,
    F: Pattern,
    G: Pattern,
> Pattern for (A, B, C, D, E, F, G) {
    open spec fn admits(&self, input: Input) -> bool {
        self.0.admits(input) && self.1.admits(input) && self.2.admits(input)
            && self.3.admits(input) && self.4.admits(input) && self.5.admits(input)
            && self.6.admits(input)
    }

    /// The patterns are asked in order, up to the first that matches.
    open spec fn accepts(&self, input: Input, matched: bool) -> bool {
        or_else(&self.0, input, matched,
        or_else(&self.1, input, matched,
        or_else(&self.2, input, matched,
        or_else(&self.3, input, matched,
        or_else(&self.4, input, matched,
        or_else(&self.5, input, matched,
        self.6.accepts(input, matched)))))))
    }

    fn matches(&self, input: Input) -> (r: bool) {
        if self.0.matches(input) {
            return true;
        }
        if self.1.matches(input) {
            return true;
        }
        if self.2.matches(input) {
            return true;
        }
        if self.3.matches(input) {
            return true;
        }
        if self.4.matches(input) {
            return true;
        }
        if self.5.matches(input) {
            return true;
        }
        self.6.matches(input)
    }
}

impl<
    A: Pattern,
    B: Pattern,
    C: Pattern,
    D: Pattern,
    E: Pattern,
    F: Pattern,
    G: Pattern,
    H: Pattern,
> Pattern for (A, B, C, D, E, F, G, H) {
    open spec fn admits(&self, input: Input) -> bool {
        self.0.admits(input) && self.1.admits(input) && self.2.admits(input)
            && self.3.admits(input) && self.4.admits(input) && self.5.admits(input)
            && self.6.admits(input) && self.7.admits(input)
    }

    /// The patterns are asked in order, up to the first that matches.
    open spec fn accepts(&self, input: Input, matched: bool) -> bool {
        or_else(&self.0, input, matched,
        or_else(&self.1, input, matched,
        or_else(&self.2, input, matched,
        or_else(&self.3, input, matched,
        or_else(&self.4, input, matched,
        or_else(&self.5, input, matched,
        or_else(&self.6, input, matched,
        self.7.accepts(input, matched))))))))
    }

    fn matches(&self, input: Input) -> (r: bool) {
        if self.0.matches(input) {
            return true;
        }
        if self.1.matches(input) {
            return true;
        }
        if self.2.matches(input) {
            return true;
        }
        if self.3.matches(input) {
            return true;
        }
        if self.4.matches(input) {
            return true;
        }
        if self.5.matches(input) {
            return true;
        }
        if self.6.matches(input) {
            return true;
        }
        self.7.matches(input)
    }
}

impl<
    A: Pattern,
    B: Pattern,
    C: Pattern,
    D: Pattern,
    E: Pattern,
    F: Pattern,
    G: Pattern,
    H: Pattern,
    I: Pattern,
> Pattern for (A, B, C, D, E, F, G, H, I) {
    open spec fn admits(&self, input: Input) -> bool {
        self.0.admits(input) && self.1.admits(input) && self.2.admits(input)
            && self.3.admits(input) && self.4.admits(input) && self.5.admits(input)
            && self.6.admits(input) && self.7.admits(input) && self.8.admits(input)
    }

    /// The patterns are asked in order, up to the first that matches.
    open spec fn accepts(&self, input: Input, matched: bool) -> bool {
        or_else(&self.0, input, matched,
        or_else(&self.1, input, matched,
        or_else(&self.2, input, matched,
        or_else(&self.3, input, matched,
        or_else(&self.4, input, matched,
        or_else(&self.5, input, matched,
        or_else(&self.6, input, matched,
        or_else(&self.7, input, matched,
        self.8.accepts(input, matched)))))))))
    }

    fn matches(&self, input: Input) -> (r: bool) {
        if self.0.matches(input) {
            return true;
        }
        if self.1.matches(input) {
            return true;
        }
        if self.2.matches(input) {
            return true;
        }
        if self.3.matches(input) {
            return true;
        }
        if self.4.matches(input) {
            return true;
        }
        if self.5.matches(input) {
            return true;
        }
        if self.6.matches(input) {
            return true;
        }
        if self.7.matches(input) {
            return true;
        }
        self.8.matches(input)
    }
}

impl<
    A: Pattern,
    B: Pattern,
    C: Pattern,
    D: Pattern,
    E: Pattern,
    F: Pattern,
    G: Pattern,
    H: Pattern,
    I: Pattern,
    J: Pattern,
> Pattern for (A, B, C, D, E, F, G, H, I, J) {
    open spec fn admits(&self, input: Input) -> bool {
        self.0.admits(input) && self.1.admits(input) && self.2.admits(input)
            && self.3.admits(input) && self.4.admits(input) && self.5.admits(input)
            && self.6.admits(input) && self.7.admits(input) && self.8.admits(input)
            && self.9.admits(input)
    }

    /// The patterns are asked in order, up to the first that matches.
    open spec fn accepts(&self, input: Input, matched: bool) -> bool {
        or_else(&self.0, input, matched,
        or_else(&self.1, input, matched,
        or_else(&self.2, input, matched,
        or_else(&self.3, input, matched,
        or_else(&self.4, input, matched,
        or_else(&self.5, input, matched,
        or_else(&self.6, input, matched,
        or_else(&self.7, input, matched,
        or_else(&self.8, input, matched,
        self.9.accepts(input, matched))))))))))
    }

    fn matches(&self, input: Input) -> (r: bool) {
        if self.0.matches(input) {
            return true;
        }
        if self.1.matches(input) {
            return true;
        }
        if self.2.matches(input) {
            return true;
        }
        if self.3.matches(input) {
            return true;
        }
        if self.4.matches(input) {
            return true;
        }
        if self.5.matches(input) {
            return true;
        }
        if self.6.matches(input) {
            return true;
        }
        if self.7.matches(input) {
            return true;
        }
        if self.8.matches(input) {
            return true;
        }
        self.9.matches(input)
    }
}

impl<
    A: Pattern,
    B: Pattern,
    C: Pattern,
    D: Pattern,
    E: Pattern,
    F: Pattern,
    G: Pattern,
    H: Pattern,
    I: Pattern,
    J: Pattern,
    K: Pattern,
> Pattern for (A, B, C, D, E, F, G, H, I, J, K) {
    open spec fn admits(&self, input: Input) -> bool {
        self.0.admits(input) && self.1.admits(input) && self.2.admits(input)
            && self.3.admits(input) && self.4.admits(input) && self.5.admits(input)
            && self.6.admits(input) && self.7.admits(input) && self.8.admits(input)
            && self.9.admits(input) && self.10.admits(input)
    }

    /// The patterns are asked in order, up to the first that matches.
    open spec fn accepts(&self, input: Input, matched: bool) -> bool {
        or_else(&self.0, input, matched,
        or_else(&self.1, input, matched,
        or_else(&self.2, input, matched,
        or_else(&self.3, input, matched,
        or_else(&self.4, input, matched,
        or_else(&self.5, input, matched,
        or_else(&self.6, input, matched,
        or_else(&self.7, input, matched,
        or_else(&self.8, input, matched,
        or_else(&self.9, input, matched,
        self.10.accepts(input, matched)))))))))))
    }

    fn matches(&self, input: Input) -> (r: bool) {
        if self.0.matches(input) {
            return true;
        }
        if self.1.matches(input) {
            return true;
        }
        if self.2.matches(input) {
            return true;
        }
        if self.3.matches(input) {
            return true;
        }
        if self.4.matches(input) {
            return true;
        }
        if self.5.matches(input) {
            return true;
        }
        if self.6.matches(input) {
            return true;
        }
        if self.7.matches(input) {
            return true;
        }
        if self.8.matches(input) {
            return true;
        }
        if self.9.matches(input) {
            return true;
        }
        self.10.matches(input)
    }
}

impl<
    A: Pattern,
    B: Pattern,
    C: Pattern,
    D: Pattern,
    E: Pattern,
    F: Pattern,
    G: Pattern,
    H: Pattern,
    I: Pattern,
    J: Pattern,
    K: Pattern,
    L: Pattern,
> Pattern for (A, B, C, D, E, F, G, H, I, J, K, L) {
    open spec fn admits(&self, input: Input) -> bool {
        self.0.admits(input) && self.1.admits(input) && self.2.admits(input)
            && self.3.admits(input) && self.4.admits(input) && self.5.admits(input)
            && self.6.admits(input) && self.7.admits(input) && self.8.admits(input)
            && self.9.admits(input) && self.10.admits(input) && self.11.admits(input)
    }

    /// The patterns are asked in order, up to the first that matches.
    open spec fn accepts(&self, input: Input, matched: bool) -> bool {
        or_else(&self.0, input, matched,
        or_else(&self.1, input, matched,
        or_else(&self.2, input, matched,
        or_else(&self.3, input, matched,
        or_else(&self.4, input, matched,
        or_else(&self.5, input, matched,
        or_else(&self.6, input, matched,
        or_else(&self.7, input, matched,
        or_else(&self.8, input, matched,
        or_else(&self.9, input, matched,
        or_else(&self.10, input, matched,
        self.11.accepts(input, matched))))))))))))
    }

    fn matches(&self, input: Input) -> (r: bool) {
        if self.0.matches(input) {
            return true;
        }
        if self.1.matches(input) {
            return true;
        }
        if self.2.matches(input) {
            return true;
        }
        if self.3.matches(input) {
            return true;
        }
        if self.4.matches(input) {
            return true;
        }
        if self.5.matches(input) {
            return true;
        }
        if self.6.matches(input) {
            return true;
        }
        if self.7.matches(input) {
            return true;
        }
        if self.8.matches(input) {
            return true;
        }
        if self.9.matches(input) {
            return true;
        }
        if self.10.matches(input) {
            return true;
        }
        self.11.matches(input)
    }
}

} // verus!
