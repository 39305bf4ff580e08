//! The text of one cell, kept in a string that stays inline while it is short.

use smartstring::{LazyCompact, SmartString};
use vstd::prelude::*;

verus! {

/// The characters of one cell: a `SmartString` of the crate `smartstring`, which holds
/// short strings without allocating.
#[verifier::external_body]
#[derive(Debug)]
pub struct CellText {
    inner: SmartString<LazyCompact>,
}

/// The characters that a cell's text holds, in order.
pub uninterp spec fn text_chars(text: CellText) -> Seq<char>;

impl CellText {
    /// `SmartString::from` on a string slice: a string with the same characters.
    #[verifier::external_body]
    pub(crate) fn from_str(s: &str) -> (text: CellText)
        ensures
            text_chars(text) == s@,
    {
        CellText { inner: SmartString::from(s) }
    }

    /// `SmartString::from_iter` on one character: the string that holds just that
    /// character.
    #[verifier::external_body]
    pub(crate) fn from_char(c: char) -> (text: CellText)
        ensures
            text_chars(text) == seq![c],
    {
        CellText { inner: core::iter::once(c).collect() }
    }

    /// `SmartString::push`: the character is appended at the end.
    #[verifier::external_body]
    pub(crate) fn push(&mut self, c: char)
        ensures
            text_chars(*final(self)) == text_chars(*old(self)).push(c),
    {
        self.inner.push(c)
    }

    /// `SmartString::as_str`: the same characters as a string slice.
    #[verifier::external_body]
    pub(crate) fn as_str(&self) -> (s: &str)
        ensures
            s@ == text_chars(*self),
    {
        self.inner.as_str()
    }

    /// `SmartString::eq`: two strings are equal where they hold the same characters.
    #[verifier::external_body]
    pub(crate) fn same(&self, other: &CellText) -> (r: bool)
        ensures
            r == (text_chars(*self) == text_chars(*other)),
    {
        self.inner == other.inner
    }

    /// `SmartString::clone`: a string with the same characters.
    #[verifier::external_body]
    pub(crate) fn duplicate(&self) -> (text: CellText)
        ensures
            text_chars(text) == text_chars(*self),
    {
        CellText { inner: self.inner.clone() }
    }
}

} // verus!
