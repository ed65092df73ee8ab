//! Appending writer operations, and the comment blocks shared by all
//! declarations.
use vstd::prelude::*;
use vstd::string::*;

use crate::ir::{doc_lines, opt_view, Documentation};
use crate::writer::{pieces, Op, Piece};

verus! {

pub open spec fn txt(s: Seq<char>) -> Piece {
    Piece::Text(s)
}

pub fn push_op(ops: &mut Vec<Op>, op: Op)
    ensures
        pieces(final(ops)@) == pieces(old(ops)@).push(op@),
{
    let ghost p = op@;
    ops.push(op);
    assert(pieces(ops@) =~= pieces(old(ops)@).push(p));
}

/// Appends text.
pub fn text(ops: &mut Vec<Op>, s: &str)
    ensures
        pieces(final(ops)@) == pieces(old(ops)@).push(txt(s@)),
{
    push_op(ops, Op::Text(String::from_str(s)));
}

pub fn new_line(ops: &mut Vec<Op>)
    ensures
        pieces(final(ops)@) == pieces(old(ops)@).push(Piece::NewLine),
{
    push_op(ops, Op::NewLine);
}

pub fn new_line_if_not_start(ops: &mut Vec<Op>)
    ensures
        pieces(final(ops)@) == pieces(old(ops)@).push(Piece::NewLineIfNotStart),
{
    push_op(ops, Op::NewLineIfNotStart);
}

pub fn open_brace(ops: &mut Vec<Op>)
    ensures
        pieces(final(ops)@) == pieces(old(ops)@).push(Piece::OpenBrace),
{
    push_op(ops, Op::OpenBrace);
}

pub fn close_brace(ops: &mut Vec<Op>)
    ensures
        pieces(final(ops)@) == pieces(old(ops)@).push(Piece::CloseBrace),
{
    push_op(ops, Op::CloseBrace);
}

pub open spec fn doc_line_pieces(lines: Seq<Seq<char>>) -> Seq<Piece>
    decreases lines.len(),
{
    if lines.len() == 0 {
        Seq::empty()
    } else {
        doc_line_pieces(lines.drop_last()) + seq![Piece::NewLine, txt(" *"@), txt(lines.last())]
    }
}

/// A `/** ... */` block with one ` *` line per documentation line; nothing
/// for empty documentation.
pub open spec fn doc_pieces(lines: Seq<Seq<char>>) -> Seq<Piece> {
    if lines.len() == 0 {
        Seq::empty()
    } else {
        seq![Piece::NewLineIfNotStart, txt("/**"@)] + doc_line_pieces(lines) + seq![
            Piece::NewLine,
            txt(" */"@),
            Piece::NewLine,
        ]
    }
}

pub fn documentation(ops: &mut Vec<Op>, d: &Documentation)
    ensures
        pieces(final(ops)@) == pieces(old(ops)@) + doc_pieces(doc_lines(*d)),
{
    let ghost lines = doc_lines(*d);
    let ghost start = pieces(ops@);
    let n = d.doc_comment.len();
    if n == 0 {
        assert(pieces(ops@) =~= start + doc_pieces(lines));
        return;
    }
    new_line_if_not_start(ops);
    text(ops, "/**");
    let ghost head = pieces(ops@);
    assert(lines.subrange(0, 0) =~= Seq::<Seq<char>>::empty());
    let mut i: usize = 0;
    while i < n
        invariant
            i <= n,
            n == d.doc_comment.len(),
            lines == doc_lines(*d),
            pieces(ops@) == head + doc_line_pieces(lines.subrange(0, i as int)),
        decreases n - i,
    {
        let ghost before = pieces(ops@);
        new_line(ops);
        text(ops, " *");
        text(ops, d.doc_comment[i].as_str());
        i = i + 1;
        proof {
            let sub = lines.subrange(0, i as int);
            assert(sub.drop_last() =~= lines.subrange(0, i - 1));
            assert(pieces(ops@) =~= head + doc_line_pieces(sub));
        }
    }
    new_line(ops);
    text(ops, " */");
    new_line(ops);
    assert(lines.subrange(0, n as int) =~= lines);
    assert(pieces(ops@) =~= start + doc_pieces(lines));
}

/// For a deprecated item: a `/** @deprecated ... */` block when there is a
/// message, then the `@Deprecated` annotation.
pub open spec fn deprecated_pieces(dep: Option<Seq<char>>) -> Seq<Piece> {
    match dep {
        None => Seq::empty(),
        Some(m) => (if m.len() > 0 {
            seq![
                txt("/**"@),
                Piece::NewLine,
                txt(" * @deprecated "@),
                txt(m),
                Piece::NewLine,
                txt(" */"@),
                Piece::NewLine,
            ]
        } else {
            Seq::empty()
        }) + seq![txt("@Deprecated"@), Piece::NewLine],
    }
}

pub fn deprecated(ops: &mut Vec<Op>, dep: &Option<String>)
    ensures
        pieces(final(ops)@) == pieces(old(ops)@) + deprecated_pieces(opt_view(*dep)),
{
    let ghost start = pieces(ops@);
    match dep {
        None => {
            assert(pieces(ops@) =~= start + deprecated_pieces(opt_view(*dep)));
        },
        Some(m) => {
            if m.as_str().unicode_len() > 0 {
                text(ops, "/**");
                new_line(ops);
                text(ops, " * @deprecated ");
                text(ops, m.as_str());
                new_line(ops);
                text(ops, " */");
                new_line(ops);
            }
            text(ops, "@Deprecated");
            new_line(ops);
            assert(pieces(ops@) =~= start + deprecated_pieces(opt_view(*dep)));
        },
    }
}

} // verus!
