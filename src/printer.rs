//! An indenting line buffer whose width is given as an unsigned 32-bit
//! integer; its text can be handed to a file by the caller.

use crate::layout::{join_with_newlines, make_spaces, IndentState};
use vstd::prelude::*;

verus! {

/// A text buffer for code generation that prefixes every line written to it
/// with the whitespace of the current indentation level.
///
/// The lines are kept with their whitespace; `to_string` joins them.
pub struct IndentedPrinter {
    /// The lines written so far, each with its leading whitespace.
    buffer: Vec<String>,
    /// Number of spaces per indentation level.
    indent: u32,
    /// Current indentation level.
    level: u32,
}

impl View for IndentedPrinter {
    type V = IndentState;

    closed spec fn view(&self) -> IndentState {
        IndentState {
            lines: self.buffer@.map_values(|s: String| s@),
            width: self.indent as nat,
            level: self.level as nat,
        }
    }
}

impl Default for IndentedPrinter {
    /// An empty buffer indenting by four spaces per level.
    fn default() -> (r: Self)
        ensures
            r@ == IndentState::empty(4),
    {
        IndentedPrinter::new(4)
    }
}

impl IndentedPrinter {
    /// An empty buffer at level zero that indents by `indent` spaces per level.
    pub fn new(indent: u32) -> (r: Self)
        ensures
            r@ == IndentState::empty(indent as nat),
    {
        let buffer: Vec<String> = Vec::new();
        let r = IndentedPrinter { buffer, indent, level: 0 };
        assert(r@.lines =~= Seq::<Seq<char>>::empty());
        r
    }

    /// Appends `text` as a new line, prefixed with `indent * level` spaces.
    /// The text is stored as given, embedded newlines included.
    pub fn println(&mut self, text: &str)
        ensures
            final(self)@ == old(self)@.write(text@),
    {
        let width = self.indent as u64;
        let level = self.level as u64;
        assert(width * level <= 0xffff_ffff * 0xffff_ffff) by (nonlinear_arith)
            requires
                width <= 0xffff_ffff,
                level <= 0xffff_ffff,
        ;
        let prefix = make_spaces(width * level);
        let line = prefix.concat(text);
        let ghost before = self.buffer@;
        self.buffer.push(line);
        assert(self.buffer@.map_values(|s: String| s@) =~= before.map_values(
            |s: String| s@,
        ).push(line@));
    }

    /// Raises the indentation level by one.
    pub fn indent_right(&mut self)
        requires
            old(self)@.level < u32::MAX,
        ensures
            final(self)@ == old(self)@.indent_right(),
    {
        self.level = self.level + 1;
    }

    /// Lowers the indentation level by one; at level zero nothing changes.
    pub fn indent_left(&mut self)
        ensures
            final(self)@ == old(self)@.indent_left(),
            old(self)@.level == 0 ==> final(self)@ == old(self)@,
    {
        if self.level > 0 {
            self.level = self.level - 1;
        }
    }

    /// Raises the indentation level by one, then writes `text` at the new level.
    pub fn println_right(&mut self, text: &str)
        requires
            old(self)@.level < u32::MAX,
        ensures
            final(self)@ == old(self)@.indent_right().write(text@),
    {
        self.indent_right();
        self.println(text);
    }

    /// Lowers the indentation level by one (not below zero), then writes
    /// `text` at the new level.
    pub fn println_left(&mut self, text: &str)
        ensures
            final(self)@ == old(self)@.indent_left().write(text@),
    {
        self.indent_left();
        self.println(text);
    }

    /// The buffer's text: its lines joined by newlines, in the order written.
    /// An empty buffer gives the empty string.
    pub fn to_string(&self) -> (r: String)
        ensures
            r@ == self@.render(),
            self@.lines.len() == 0 ==> r@.len() == 0,
    {
        join_with_newlines(&self.buffer)
    }
}

} // verus!
