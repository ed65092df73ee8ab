//! A text writer with indentation, brace blocks and line-length aware lists.
//!
//! The emitters never write characters directly: they produce a sequence of
//! [`Op`]s, and [`SourceWriter::emit`] renders it. What rendering does is
//! stated by [`run`] over the writer's abstract state.
use vstd::prelude::*;
use vstd::string::*;

verus! {

/// How a list (parameters, field names) is laid out.
#[derive(Clone, Copy, Debug, PartialEq, Eq, Structural)]
pub enum Layout {
    Horizontal,
    Vertical,
    Auto,
}

/// The abstract meaning of one writer operation.
pub enum Piece {
    Text(Seq<char>),
    NewLine,
    NewLineIfNotStart,
    OpenBrace,
    CloseBrace,
    List { items: Seq<Seq<char>>, sep: Seq<char>, vsep: Seq<char>, layout: Layout, limit: nat },
}

/// One writer operation.
pub enum Op {
    /// Text, preceded by the indentation when it starts a line.
    Text(String),
    NewLine,
    /// A line break, unless nothing has been broken yet.
    NewLineIfNotStart,
    /// ` {`, then one more level of indentation and a line break.
    OpenBrace,
    /// One level of indentation less, a line break and `}`.
    CloseBrace,
    /// Items joined by `sep` on one line, or one per line aligned on the
    /// current column, each but the last followed by `vsep`.
    List { items: Vec<String>, sep: String, vsep: String, layout: Layout, limit: usize },
}

impl View for Op {
    type V = Piece;

    open spec fn view(&self) -> Piece {
        match self {
            Op::Text(s) => Piece::Text(s@),
            Op::NewLine => Piece::NewLine,
            Op::NewLineIfNotStart => Piece::NewLineIfNotStart,
            Op::OpenBrace => Piece::OpenBrace,
            Op::CloseBrace => Piece::CloseBrace,
            Op::List { items, sep, vsep, layout, limit } => Piece::List {
                items: string_views(items@),
                sep: sep@,
                vsep: vsep@,
                layout: *layout,
                limit: *limit as nat,
            },
        }
    }
}

pub open spec fn string_views(v: Seq<String>) -> Seq<Seq<char>> {
    v.map_values(|s: String| s@)
}

pub open spec fn pieces(ops: Seq<Op>) -> Seq<Piece> {
    ops.map_values(|o: Op| o@)
}

/// The abstract state of a writer.
pub struct WriterState {
    pub text: Seq<char>,
    /// Indentation stack; the last entry is the current indentation.
    pub spaces: Seq<nat>,
    pub tab_width: nat,
    pub line_started: bool,
    pub line_length: nat,
    /// No line break has been written yet.
    pub first_line: bool,
}

pub open spec fn sat(n: int) -> nat {
    if n > usize::MAX { usize::MAX as nat } else if n < 0 { 0 } else { n as nat }
}

pub open spec fn blanks(n: nat) -> Seq<char> {
    Seq::new(n, |i: int| ' ')
}

pub open spec fn indent(st: WriterState) -> nat {
    if st.spaces.len() == 0 { 0 } else { st.spaces.last() }
}

pub open spec fn fresh(tab_width: nat) -> WriterState {
    WriterState {
        text: Seq::empty(),
        spaces: Seq::empty(),
        tab_width,
        line_started: false,
        line_length: 0,
        first_line: true,
    }
}

/// Writing text: empty text changes nothing; text that starts a line is
/// preceded by the current indentation.
pub open spec fn write_text(st: WriterState, s: Seq<char>) -> WriterState {
    if s.len() == 0 {
        st
    } else {
        let lead: nat = if st.line_started { 0 } else { indent(st) };
        WriterState {
            text: st.text + blanks(lead) + s,
            line_started: true,
            line_length: sat(st.line_length + lead + s.len() as int),
            ..st
        }
    }
}

pub open spec fn new_line(st: WriterState) -> WriterState {
    WriterState {
        text: st.text.push('\n'),
        line_started: false,
        line_length: 0,
        first_line: false,
        ..st
    }
}

pub open spec fn new_line_if_not_start(st: WriterState) -> WriterState {
    if st.first_line { st } else { new_line(st) }
}

/// The next indentation: the current one rounded down to a multiple of the
/// tab width, plus one tab width.
pub open spec fn push_tab(st: WriterState) -> WriterState {
    let cur = indent(st);
    let next = if st.tab_width == 0 { cur } else { sat(cur - cur % st.tab_width + st.tab_width) };
    WriterState { spaces: st.spaces.push(next), ..st }
}

pub open spec fn pop_tab(st: WriterState) -> WriterState {
    if st.spaces.len() == 0 { st } else { WriterState { spaces: st.spaces.drop_last(), ..st } }
}

pub open spec fn open_brace(st: WriterState) -> WriterState {
    new_line(push_tab(write_text(st, " {"@)))
}

pub open spec fn close_brace(st: WriterState) -> WriterState {
    write_text(new_line(pop_tab(st)), "}"@)
}

/// The items joined by the separator.
pub open spec fn joined(items: Seq<Seq<char>>, sep: Seq<char>) -> Seq<char>
    decreases items.len(),
{
    if items.len() == 0 {
        Seq::empty()
    } else if items.len() == 1 {
        items[0]
    } else {
        joined(items.drop_last(), sep) + sep + items.last()
    }
}

/// The length of the current line once the horizontal rendering is written.
pub open spec fn horizontal_width(st: WriterState, items: Seq<Seq<char>>, sep: Seq<char>) -> int {
    let j = joined(items, sep);
    if j.len() == 0 {
        st.line_length as int
    } else {
        st.line_length + (if st.line_started { 0 } else { indent(st) as int }) + j.len()
    }
}

/// Whether the horizontal rendering keeps the line within the limit.
pub open spec fn fits(st: WriterState, items: Seq<Seq<char>>, sep: Seq<char>, limit: nat) -> bool {
    horizontal_width(st, items, sep) <= limit
}

pub open spec fn horizontal(st: WriterState, items: Seq<Seq<char>>, sep: Seq<char>) -> WriterState {
    write_text(st, joined(items, sep))
}

/// One item per line, each but the last followed by the separator.
pub open spec fn vertical_items(st: WriterState, items: Seq<Seq<char>>, sep: Seq<char>) -> WriterState
    decreases items.len(),
{
    if items.len() == 0 {
        st
    } else if items.len() == 1 {
        write_text(st, items[0])
    } else {
        vertical_items(new_line(write_text(write_text(st, items[0]), sep)), items.drop_first(), sep)
    }
}

/// The vertical rendering, aligned on the column where the list starts.
pub open spec fn vertical(st: WriterState, items: Seq<Seq<char>>, sep: Seq<char>) -> WriterState {
    let align = if st.line_started { st.line_length } else { sat(st.line_length + indent(st) as int) };
    let inner = vertical_items(WriterState { spaces: st.spaces.push(align), ..st }, items, sep);
    pop_tab(inner)
}

/// The layout rule: forced modes render as asked, `Auto` renders
/// horizontally when that fits and vertically otherwise.
pub open spec fn write_list(
    st: WriterState,
    items: Seq<Seq<char>>,
    sep: Seq<char>,
    vsep: Seq<char>,
    layout: Layout,
    limit: nat,
) -> WriterState {
    match layout {
        Layout::Horizontal => horizontal(st, items, sep),
        Layout::Vertical => vertical(st, items, vsep),
        Layout::Auto => if fits(st, items, sep, limit) {
            horizontal(st, items, sep)
        } else {
            vertical(st, items, vsep)
        },
    }
}

/// Under `Auto`, a list whose horizontal rendering fits the limit comes
/// out exactly as under a forced `Horizontal` layout, and one that does not
/// comes out exactly as under a forced `Vertical` layout.
pub proof fn auto_layout_matches_forced(
    st: WriterState,
    items: Seq<Seq<char>>,
    sep: Seq<char>,
    vsep: Seq<char>,
    limit: nat,
)
    ensures
        horizontal_width(st, items, sep) <= limit ==> write_list(st, items, sep, vsep, Layout::Auto, limit)
            == write_list(st, items, sep, vsep, Layout::Horizontal, limit),
        horizontal_width(st, items, sep) > limit ==> write_list(st, items, sep, vsep, Layout::Auto, limit)
            == write_list(st, items, sep, vsep, Layout::Vertical, limit),
{
}

pub open spec fn apply(st: WriterState, p: Piece) -> WriterState {
    match p {
        Piece::Text(s) => write_text(st, s),
        Piece::NewLine => new_line(st),
        Piece::NewLineIfNotStart => new_line_if_not_start(st),
        Piece::OpenBrace => open_brace(st),
        Piece::CloseBrace => close_brace(st),
        Piece::List { items, sep, vsep, layout, limit } => write_list(st, items, sep, vsep, layout, limit),
    }
}

/// The state after rendering a sequence of pieces, in order.
pub open spec fn run(st: WriterState, ps: Seq<Piece>) -> WriterState
    decreases ps.len(),
{
    if ps.len() == 0 { st } else { run(apply(st, ps[0]), ps.drop_first()) }
}

/// The state with `pre` written before everything else.
pub open spec fn prepend(st: WriterState, pre: Seq<char>) -> WriterState {
    WriterState { text: pre + st.text, ..st }
}

proof fn lemma_write_text_prepend(st: WriterState, pre: Seq<char>, s: Seq<char>)
    ensures
        write_text(prepend(st, pre), s) == prepend(write_text(st, s), pre),
{
    let lead: nat = if st.line_started { 0 } else { indent(st) };
    assert(pre + st.text + blanks(lead) + s =~= pre + (st.text + blanks(lead) + s));
}

proof fn lemma_new_line_prepend(st: WriterState, pre: Seq<char>)
    ensures
        new_line(prepend(st, pre)) == prepend(new_line(st), pre),
{
    assert((pre + st.text).push('\n') =~= pre + st.text.push('\n'));
}

proof fn lemma_vertical_items_prepend(st: WriterState, pre: Seq<char>, items: Seq<Seq<char>>, sep: Seq<char>)
    ensures
        vertical_items(prepend(st, pre), items, sep) == prepend(vertical_items(st, items, sep), pre),
    decreases items.len(),
{
    if items.len() == 1 {
        lemma_write_text_prepend(st, pre, items[0]);
    } else if items.len() > 1 {
        let s1 = write_text(st, items[0]);
        let s2 = write_text(s1, sep);
        lemma_write_text_prepend(st, pre, items[0]);
        lemma_write_text_prepend(s1, pre, sep);
        lemma_new_line_prepend(s2, pre);
        lemma_vertical_items_prepend(new_line(s2), pre, items.drop_first(), sep);
    }
}

proof fn lemma_apply_prepend(st: WriterState, pre: Seq<char>, p: Piece)
    ensures
        apply(prepend(st, pre), p) == prepend(apply(st, p), pre),
{
    match p {
        Piece::Text(s) => lemma_write_text_prepend(st, pre, s),
        Piece::NewLine => lemma_new_line_prepend(st, pre),
        Piece::NewLineIfNotStart => lemma_new_line_prepend(st, pre),
        Piece::OpenBrace => {
            let s1 = write_text(st, " {"@);
            lemma_write_text_prepend(st, pre, " {"@);
            lemma_new_line_prepend(push_tab(s1), pre);
        },
        Piece::CloseBrace => {
            lemma_new_line_prepend(pop_tab(st), pre);
            lemma_write_text_prepend(new_line(pop_tab(st)), pre, "}"@);
        },
        Piece::List { items, sep, vsep, layout, limit } => {
            lemma_write_text_prepend(st, pre, joined(items, sep));
            let align = if st.line_started { st.line_length } else { sat(st.line_length + indent(st) as int) };
            let pushed = WriterState { spaces: st.spaces.push(align), ..st };
            lemma_vertical_items_prepend(pushed, pre, items, vsep);
        },
    }
}

proof fn lemma_run_prepend(st: WriterState, pre: Seq<char>, ps: Seq<Piece>)
    ensures
        run(prepend(st, pre), ps) == prepend(run(st, ps), pre),
    decreases ps.len(),
{
    if ps.len() > 0 {
        lemma_apply_prepend(st, pre, ps[0]);
        lemma_run_prepend(apply(st, ps[0]), pre, ps.drop_first());
    }
}

/// Rendering keeps no hidden state: what a sequence of operations appends
/// depends on the writer's indentation and line position alone, not on the
/// text already written. So emitting the same declarations twice, from
/// writers in the same position, appends byte-identical text.
pub proof fn rendering_is_reproducible(a: WriterState, b: WriterState, ps: Seq<Piece>)
    requires
        a.spaces == b.spaces,
        a.tab_width == b.tab_width,
        a.line_started == b.line_started,
        a.line_length == b.line_length,
        a.first_line == b.first_line,
    ensures
        run(a, ps).text == a.text + run(WriterState { text: Seq::empty(), ..a }, ps).text,
        run(b, ps).text == b.text + run(WriterState { text: Seq::empty(), ..a }, ps).text,
{
    let empty = WriterState { text: Seq::empty(), ..a };
    assert(prepend(empty, a.text) == a) by {
        assert(a.text + Seq::<char>::empty() =~= a.text);
    }
    assert(prepend(empty, b.text) == b) by {
        assert(b.text + Seq::<char>::empty() =~= b.text);
    }
    lemma_run_prepend(empty, a.text, ps);
    lemma_run_prepend(empty, b.text, ps);
}

/// A writer of source text into a `String`.
pub struct SourceWriter {
    out: String,
    spaces: Vec<usize>,
    tab_width: usize,
    line_started: bool,
    line_length: usize,
    first_line: bool,
}

impl View for SourceWriter {
    type V = WriterState;

    closed spec fn view(&self) -> WriterState {
        WriterState {
            text: self.out@,
            spaces: self.spaces@.map_values(|n: usize| n as nat),
            tab_width: self.tab_width as nat,
            line_started: self.line_started,
            line_length: self.line_length as nat,
            first_line: self.first_line,
        }
    }
}

impl SourceWriter {
    /// A writer with nothing written, indenting by `tab_width` per level.
    pub fn new(tab_width: usize) -> (w: SourceWriter)
        ensures
            w@ == fresh(tab_width as nat),
    {
        let w = SourceWriter {
            out: String::new(),
            spaces: Vec::new(),
            tab_width,
            line_started: false,
            line_length: 0,
            first_line: true,
        };
        assert(w@.spaces =~= Seq::<nat>::empty());
        w
    }

    /// The text written so far.
    pub fn as_str(&self) -> (r: &str)
        ensures
            r@ == self@.text,
    {
        self.out.as_str()
    }

    /// Consumes the writer, handing back the text written.
    pub fn into_string(self) -> (r: String)
        ensures
            r@ == self@.text,
    {
        self.out
    }

    fn current_indent(&self) -> (r: usize)
        ensures
            r as nat == indent(self@),
    {
        if self.spaces.len() == 0 {
            0
        } else {
            self.spaces[self.spaces.len() - 1]
        }
    }

    fn append_blanks(&mut self, n: usize)
        ensures
            final(self)@ == (WriterState { text: old(self)@.text + blanks(n as nat), ..old(self)@ }),
    {
        let ghost start = self.out@;
        let mut i: usize = 0;
        while i < n
            invariant
                i <= n,
                self.out@ == start + blanks(i as nat),
                self.spaces == old(self).spaces,
                self.tab_width == old(self).tab_width,
                self.line_started == old(self).line_started,
                self.line_length == old(self).line_length,
                self.first_line == old(self).first_line,
            decreases n - i,
        {
            proof {
                reveal_strlit(" ");
            }
            self.out.append(" ");
            i = i + 1;
            assert(self.out@ =~= start + blanks(i as nat));
        }
    }

    /// Writes text; the indentation comes first when it starts a line.
    pub fn write(&mut self, s: &str)
        ensures
            final(self)@ == write_text(old(self)@, s@),
    {
        let n = s.unicode_len();
        if n == 0 {
            return;
        }
        let lead = if self.line_started { 0 } else { self.current_indent() };
        self.append_blanks(lead);
        self.out.append(s);
        self.line_started = true;
        self.line_length = self.line_length.saturating_add(lead).saturating_add(n);
        proof {
            assert(self@.text =~= old(self)@.text + blanks(lead as nat) + s@);
            assert(self@.spaces =~= old(self)@.spaces);
        }
    }

    pub fn new_line(&mut self)
        ensures
            final(self)@ == new_line(old(self)@),
    {
        proof {
            reveal_strlit("\n");
        }
        self.out.append("\n");
        self.line_started = false;
        self.line_length = 0;
        self.first_line = false;
        assert(self@.text =~= old(self)@.text.push('\n'));
        assert(self@.spaces =~= old(self)@.spaces);
    }

    pub fn new_line_if_not_start(&mut self)
        ensures
            final(self)@ == new_line_if_not_start(old(self)@),
    {
        if !self.first_line {
            self.new_line();
        }
    }

    fn push_spaces(&mut self, n: usize)
        ensures
            final(self)@ == (WriterState { spaces: old(self)@.spaces.push(n as nat), ..old(self)@ }),
    {
        self.spaces.push(n);
        assert(self@.spaces =~= old(self)@.spaces.push(n as nat));
    }

    fn push_tab(&mut self)
        ensures
            final(self)@ == push_tab(old(self)@),
    {
        let cur = self.current_indent();
        let next = if self.tab_width == 0 {
            cur
        } else {
            proof {
                vstd::arithmetic::div_mod::lemma_mod_decreases(cur as nat, self.tab_width as nat);
            }
            (cur - cur % self.tab_width).saturating_add(self.tab_width)
        };
        self.push_spaces(next);
    }

    fn pop_tab(&mut self)
        ensures
            final(self)@ == pop_tab(old(self)@),
    {
        if self.spaces.len() > 0 {
            self.spaces.pop();
            assert(self@.spaces =~= old(self)@.spaces.drop_last());
        }
    }

    pub fn open_brace(&mut self)
        ensures
            final(self)@ == open_brace(old(self)@),
    {
        self.write(" {");
        self.push_tab();
        self.new_line();
    }

    pub fn close_brace(&mut self)
        ensures
            final(self)@ == close_brace(old(self)@),
    {
        self.pop_tab();
        self.new_line();
        self.write("}");
    }

    fn join(items: &Vec<String>, sep: &str) -> (r: String)
        ensures
            r@ == joined(string_views(items@), sep@),
    {
        let ghost its = string_views(items@);
        let mut r = String::new();
        let mut i: usize = 0;
        while i < items.len()
            invariant
                i <= items.len(),
                its == string_views(items@),
                r@ == joined(its.subrange(0, i as int), sep@),
            decreases items.len() - i,
        {
            if i > 0 {
                r.append(sep);
            }
            r.append(items[i].as_str());
            i = i + 1;
            proof {
                let pre = its.subrange(0, i as int);
                assert(pre.drop_last() =~= its.subrange(0, i - 1));
                if i == 1 {
                    assert(its.subrange(0, 0) =~= Seq::<Seq<char>>::empty());
                }
            }
        }
        assert(its.subrange(0, items.len() as int) =~= its);
        r
    }

    fn write_horizontal(&mut self, items: &Vec<String>, sep: &str)
        ensures
            final(self)@ == horizontal(old(self)@, string_views(items@), sep@),
    {
        let j = Self::join(items, sep);
        self.write(j.as_str());
    }

    fn write_vertical(&mut self, items: &Vec<String>, sep: &str)
        ensures
            final(self)@ == vertical(old(self)@, string_views(items@), sep@),
    {
        let ghost its = string_views(items@);
        let align = if self.line_started {
            self.line_length
        } else {
            self.line_length.saturating_add(self.current_indent())
        };
        self.push_spaces(align);
        let ghost target = vertical_items(self@, its, sep@);
        let n = items.len();
        let mut i: usize = 0;
        assert(its.subrange(0, n as int) =~= its);
        while i < n
            invariant
                i <= n,
                n == items.len(),
                its == string_views(items@),
                vertical_items(self@, its.subrange(i as int, n as int), sep@) == target,
            decreases n - i,
        {
            let ghost st = self@;
            let ghost rest = its.subrange(i as int, n as int);
            self.write(items[i].as_str());
            if i + 1 < n {
                self.write(sep);
                self.new_line();
            }
            i = i + 1;
            proof {
                assert(rest.drop_first() =~= its.subrange(i as int, n as int));
                if i == n {
                    assert(its.subrange(i as int, n as int) =~= Seq::<Seq<char>>::empty());
                }
            }
        }
        self.pop_tab();
    }

    /// Writes a list under the layout rule of [`write_list`].
    pub fn write_list(&mut self, items: &Vec<String>, sep: &str, vsep: &str, layout: Layout, limit: usize)
        ensures
            final(self)@ == write_list(
                old(self)@,
                string_views(items@),
                sep@,
                vsep@,
                layout,
                limit as nat,
            ),
    {
        match layout {
            Layout::Horizontal => self.write_horizontal(items, sep),
            Layout::Vertical => self.write_vertical(items, vsep),
            Layout::Auto => {
                let j = Self::join(items, sep);
                let len = j.as_str().unicode_len();
                let width: u128 = if len == 0 {
                    self.line_length as u128
                } else if self.line_started {
                    self.line_length as u128 + len as u128
                } else {
                    self.line_length as u128 + self.current_indent() as u128 + len as u128
                };
                if width <= limit as u128 {
                    self.write(j.as_str());
                } else {
                    self.write_vertical(items, vsep);
                }
            },
        }
    }

    fn apply(&mut self, op: &Op)
        ensures
            final(self)@ == apply(old(self)@, op@),
    {
        match op {
            Op::Text(s) => self.write(s.as_str()),
            Op::NewLine => self.new_line(),
            Op::NewLineIfNotStart => self.new_line_if_not_start(),
            Op::OpenBrace => self.open_brace(),
            Op::CloseBrace => self.close_brace(),
            Op::List { items, sep, vsep, layout, limit } => self.write_list(
                items,
                sep.as_str(),
                vsep.as_str(),
                *layout,
                *limit,
            ),
        }
    }

    /// Renders a sequence of operations, in order.
    pub fn emit(&mut self, ops: &Vec<Op>)
        ensures
            final(self)@ == run(old(self)@, pieces(ops@)),
    {
        let ghost ps = pieces(ops@);
        let ghost target = run(self@, ps);
        let n = ops.len();
        let mut i: usize = 0;
        assert(ps.subrange(0, n as int) =~= ps);
        while i < n
            invariant
                i <= n,
                n == ops.len(),
                ps == pieces(ops@),
                run(self@, ps.subrange(i as int, n as int)) == target,
            decreases n - i,
        {
            let ghost rest = ps.subrange(i as int, n as int);
            self.apply(&ops[i]);
            i = i + 1;
            assert(rest.drop_first() =~= ps.subrange(i as int, n as int));
        }
        assert(ps.subrange(n as int, n as int) =~= Seq::<Piece>::empty());
    }
}

} // verus!
