//! An indenting line buffer whose width is given as a signed 32-bit integer
//! that must not be negative. It behaves as [`IndentedPrinter`] does.

use crate::layout::IndentState;
use crate::printer::IndentedPrinter;
use vstd::prelude::*;

verus! {

/// A text buffer for code generation that prefixes every line written to it
/// with the whitespace of the current indentation level.
///
/// The lines are kept with their whitespace; `to_string` joins them.
pub struct CodeBuffer {
    /// The buffer that does the work; only its construction differs.
    inner: IndentedPrinter,
}

impl View for CodeBuffer {
    type V = IndentState;

    closed spec fn view(&self) -> IndentState {
        self.inner@
    }
}

impl Default for CodeBuffer {
    /// An empty buffer indenting by four spaces per level.
    fn default() -> (r: Self)
        ensures
            r@ == IndentState::empty(4),
    {
        CodeBuffer::new(4)
    }
}

impl CodeBuffer {
    /// An empty buffer at level zero that indents by `indent` spaces per level.
    pub fn new(indent: i32) -> (r: Self)
        requires
            indent >= 0,
        ensures
            r@ == IndentState::empty(indent as nat),
    {
        CodeBuffer { inner: IndentedPrinter::new(indent as u32) }
    }

    /// Appends `text` as a new line, prefixed with `indent * level` spaces.
    /// The text is stored as given, embedded newlines included.
    pub fn println(&mut self, text: &str)
        ensures
            final(self)@ == old(self)@.write(text@),
    {
        self.inner.println(text);
    }

    /// Raises the indentation level by one.
    pub fn indent_right(&mut self)
        requires
            old(self)@.level < u32::MAX,
        ensures
            final(self)@ == old(self)@.indent_right(),
    {
        self.inner.indent_right();
    }

    /// Lowers the indentation level by one; at level zero nothing changes.
    pub fn indent_left(&mut self)
        ensures
            final(self)@ == old(self)@.indent_left(),
            old(self)@.level == 0 ==> final(self)@ == old(self)@,
    {
        self.inner.indent_left();
    }

    /// Raises the indentation level by one, then writes `text` at the new level.
    pub fn println_right(&mut self, text: &str)
        requires
            old(self)@.level < u32::MAX,
        ensures
            final(self)@ == old(self)@.indent_right().write(text@),
    {
        self.indent_right();
        self.println(text);
    }

    /// Lowers the indentation level by one (not below zero), then writes
    /// `text` at the new level.
    pub fn println_left(&mut self, text: &str)
        ensures
            final(self)@ == old(self)@.indent_left().write(text@),
    {
        self.indent_left();
        self.println(text);
    }

    /// The buffer's text: its lines joined by newlines, in the order written.
    /// An empty buffer gives the empty string.
    pub fn to_string(&self) -> (r: String)
        ensures
            r@ == self@.render(),
            self@.lines.len() == 0 ==> r@.len() == 0,
    {
        self.inner.to_string()
    }
}

} // verus!
