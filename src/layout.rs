//! The mathematical model shared by the indenting buffers, and the string
//! building blocks they are made of.

use vstd::prelude::*;

verus! {

/// `n` space characters.
pub open spec fn spaces(n: nat) -> Seq<char> {
    Seq::new(n, |i: int| ' ')
}

/// The lines joined with a newline between each two neighbours: no
/// newline before the first line nor after the last one.
pub open spec fn join_lines(lines: Seq<Seq<char>>) -> Seq<char>
    decreases lines.len(),
{
    if lines.len() == 0 {
        Seq::empty()
    } else if lines.len() == 1 {
        lines[0]
    } else {
        join_lines(lines.drop_last()) + seq!['\n'] + lines.last()
    }
}

/// What an indenting buffer holds: the lines written so far, each with its
/// leading whitespace, the number of spaces per level, and the current level.
pub ghost struct IndentState {
    pub lines: Seq<Seq<char>>,
    pub width: nat,
    pub level: nat,
}

impl IndentState {
    /// A buffer with no lines, at level zero.
    pub open spec fn empty(width: nat) -> IndentState {
        IndentState { lines: Seq::empty(), width, level: 0 }
    }

    /// The whitespace put in front of a line written at the current level.
    pub open spec fn prefix(self) -> Seq<char> {
        spaces(self.width * self.level)
    }

    /// The state after `text` was written at the current level.
    pub open spec fn write(self, text: Seq<char>) -> IndentState {
        IndentState { lines: self.lines.push(self.prefix() + text), ..self }
    }

    /// The state after the level went up by one.
    pub open spec fn indent_right(self) -> IndentState {
        IndentState { level: self.level + 1, ..self }
    }

    /// The state after the level went down by one, where it was above zero.
    pub open spec fn indent_left(self) -> IndentState {
        if self.level == 0 {
            self
        } else {
            IndentState { level: (self.level - 1) as nat, ..self }
        }
    }

    /// The state after each of `texts` was written, in order, at the
    /// current level.
    pub open spec fn write_all(self, texts: Seq<Seq<char>>) -> IndentState
        decreases texts.len(),
    {
        if texts.len() == 0 {
            self
        } else {
            self.write_all(texts.drop_last()).write(texts.last())
        }
    }

    /// The rendered text: all lines joined by newlines, in the order written.
    pub open spec fn render(self) -> Seq<char> {
        join_lines(self.lines)
    }
}

/// Writing at level zero adds each text as a line of its own, with no
/// leading spaces; from an empty buffer the rendered text is the texts
/// joined by newlines.
pub proof fn lemma_write_all_at_level_zero(s: IndentState, texts: Seq<Seq<char>>)
    requires
        s.level == 0,
    ensures
        s.write_all(texts).lines == s.lines + texts,
        s.write_all(texts).level == 0,
        s.write_all(texts).width == s.width,
        s.lines.len() == 0 ==> s.write_all(texts).render() == join_lines(texts),
    decreases texts.len(),
{
    if texts.len() > 0 {
        lemma_write_all_at_level_zero(s, texts.drop_last());
        assert(s.width * 0 == 0);
        assert(spaces(0) + texts.last() =~= texts.last());
        assert(s.lines + texts.drop_last() + seq![texts.last()] =~= s.lines + texts);
        assert(s.write_all(texts).lines =~= s.lines + texts);
    } else {
        assert(s.lines + texts =~= s.lines);
    }
    if s.lines.len() == 0 {
        assert(s.lines + texts =~= texts);
    }
}

/// Raising the level and then writing puts exactly `width` more spaces in
/// front of the text than writing at the old level would; from level zero
/// the line is `width` spaces followed by the text.
pub proof fn lemma_indent_right_then_write(s: IndentState, text: Seq<char>)
    ensures
        s.indent_right().write(text).lines.last() == spaces(s.width) + s.write(text).lines.last(),
        s.level == 0 ==> s.indent_right().write(text).lines.last() == spaces(s.width) + text,
{
    assert(s.width * (s.level + 1) == s.width + s.width * s.level) by (nonlinear_arith);
    assert(spaces(s.width * (s.level + 1)) =~= spaces(s.width) + spaces(s.width * s.level));
    assert(spaces(s.width) + (spaces(s.width * s.level) + text) =~= spaces(s.width)
        + spaces(s.width * s.level) + text);
    if s.level == 0 {
        assert(s.width * 0 == 0);
        assert(spaces(0) + text =~= text);
    }
}

/// At level zero, lowering the level and then writing is the same as
/// writing: the level stays at zero.
pub proof fn lemma_indent_left_then_write_at_level_zero(s: IndentState, text: Seq<char>)
    requires
        s.level == 0,
    ensures
        s.indent_left().write(text) == s.write(text),
        s.indent_left().level == 0,
{
}

/// Two writes at the same level add two lines, in order, with the same
/// leading whitespace.
pub proof fn lemma_two_writes_same_level(s: IndentState, a: Seq<char>, b: Seq<char>)
    ensures
        s.write(a).write(b).lines == s.lines + seq![s.prefix() + a, s.prefix() + b],
        s.write(a).write(b).level == s.level,
{
    assert(s.write(a).write(b).lines =~= s.lines + seq![s.prefix() + a, s.prefix() + b]);
}

/// Rendering reads the state and nothing else: two renderings of one state
/// give the same text.
pub proof fn lemma_render_repeatable(s: IndentState, t: IndentState)
    requires
        s == t,
    ensures
        s.render() == t.render(),
{
}

/// Returns a string of `n` spaces.
pub fn make_spaces(n: u64) -> (r: String)
    ensures
        r@ == spaces(n as nat),
{
    let mut r = String::new();
    let mut i: u64 = 0;
    proof {
        reveal_strlit(" ");
        assert(" "@ =~= seq![' ']);
    }
    while i < n
        invariant
            i <= n,
            r@ == spaces(i as nat),
            " "@ == seq![' '],
        decreases n - i,
    {
        r.append(" ");
        i = i + 1;
        assert(r@ =~= spaces(i as nat));
    }
    r
}

/// Joins the lines with `'\n'` between each two neighbours.
pub fn join_with_newlines(lines: &Vec<String>) -> (r: String)
    ensures
        r@ == join_lines(lines@.map_values(|s: String| s@)),
{
    let ghost views = lines@.map_values(|s: String| s@);
    if lines.len() == 0 {
        return String::new();
    }
    let mut r = String::from_str(lines[0].as_str());
    let mut i: usize = 1;
    proof {
        reveal_strlit("\n");
        assert("\n"@ =~= seq!['\n']);
        assert(views.take(1).drop_last() =~= Seq::<Seq<char>>::empty());
    }
    while i < lines.len()
        invariant
            1 <= i <= lines.len(),
            views == lines@.map_values(|s: String| s@),
            r@ == join_lines(views.take(i as int)),
            "\n"@ == seq!['\n'],
        decreases lines.len() - i,
    {
        r.append("\n");
        r.append(lines[i].as_str());
        assert(views.take(i + 1).drop_last() =~= views.take(i as int));
        assert(views.take(i + 1).last() == lines@[i as int]@);
        i = i + 1;
    }
    assert(views.take(lines.len() as int) =~= views);
    r
}

} // verus!
