//! The Java classes emitted for declarations: pointer wrappers, integer
//! wrappers and JNA structures.
use vstd::prelude::*;
use vstd::string::*;

use crate::integer::{get_method_text, set_method_text, size_text, JnaIntegerType};
use crate::ir::{doc_lines, opt_view, Constant, Documentation, Field, Literal};
use crate::ops::{
    close_brace, deprecated, deprecated_pieces, doc_pieces, documentation, new_line, open_brace,
    push_op, text, txt,
};
use crate::types::{java_name, java_type_name, java_writable_literal, wrap_java_value,
    wrapped_expr, writable_literal};
use crate::writer::{pieces, string_views, Layout, Op, Piece};

verus! {

pub fn append_ops(ops: &mut Vec<Op>, extra: Vec<Op>)
    ensures
        pieces(final(ops)@) == pieces(old(ops)@) + pieces(extra@),
{
    let mut extra = extra;
    let ghost e = pieces(extra@);
    ops.append(&mut extra);
    assert(pieces(ops@) =~= pieces(old(ops)@) + e);
}

/// The handle class of a pointer wrapper.
pub open spec fn pointer_class(name: Seq<char>) -> Seq<Piece> {
    seq![
        txt("class "@), txt(name), txt(" extends PointerType"@), Piece::OpenBrace,
        txt("public "@), txt(name), txt("()"@), Piece::OpenBrace,
        txt("super(null);"@), Piece::CloseBrace, Piece::NewLine,
        txt("public "@), txt(name), txt("(Pointer p)"@), Piece::OpenBrace,
        txt("super(p);"@), Piece::CloseBrace,
        Piece::CloseBrace, Piece::NewLine, Piece::NewLine,
    ]
}

/// The reference class of a pointer wrapper.
pub open spec fn pointer_ref_class(name: Seq<char>) -> Seq<Piece> {
    seq![
        txt("class "@), txt(name), txt("ByReference extends "@), txt(name), Piece::OpenBrace,
        txt("public "@), txt(name), txt("ByReference()"@), Piece::OpenBrace,
        txt("super(null);"@), Piece::CloseBrace, Piece::NewLine,
        txt("public "@), txt(name), txt("ByReference(Pointer p)"@), Piece::OpenBrace,
        txt("super(p);"@), Piece::CloseBrace,
        Piece::CloseBrace,
    ]
}

/// A pointer wrapper: a handle class and its reference class, each with a
/// null constructor and one from a native pointer, and no fields.
pub open spec fn pointer_type_pieces(
    doc: Seq<Seq<char>>,
    dep: Option<Seq<char>>,
    name: Seq<char>,
) -> Seq<Piece> {
    doc_pieces(doc) + deprecated_pieces(dep) + pointer_class(name) + doc_pieces(doc)
        + deprecated_pieces(dep) + pointer_ref_class(name)
}

fn pointer_class_ops(ops: &mut Vec<Op>, name: &str)
    ensures
        pieces(final(ops)@) == pieces(old(ops)@) + pointer_class(name@),
{
    text(ops, "class ");
    text(ops, name);
    text(ops, " extends PointerType");
    open_brace(ops);
    text(ops, "public ");
    text(ops, name);
    text(ops, "()");
    open_brace(ops);
    text(ops, "super(null);");
    close_brace(ops);
    new_line(ops);
    text(ops, "public ");
    text(ops, name);
    text(ops, "(Pointer p)");
    open_brace(ops);
    text(ops, "super(p);");
    close_brace(ops);
    close_brace(ops);
    new_line(ops);
    new_line(ops);
    assert(pieces(ops@) =~= pieces(old(ops)@) + pointer_class(name@));
}

fn pointer_ref_class_ops(ops: &mut Vec<Op>, name: &str)
    ensures
        pieces(final(ops)@) == pieces(old(ops)@) + pointer_ref_class(name@),
{
    text(ops, "class ");
    text(ops, name);
    text(ops, "ByReference extends ");
    text(ops, name);
    open_brace(ops);
    text(ops, "public ");
    text(ops, name);
    text(ops, "ByReference()");
    open_brace(ops);
    text(ops, "super(null);");
    close_brace(ops);
    new_line(ops);
    text(ops, "public ");
    text(ops, name);
    text(ops, "ByReference(Pointer p)");
    open_brace(ops);
    text(ops, "super(p);");
    close_brace(ops);
    close_brace(ops);
    assert(pieces(ops@) =~= pieces(old(ops)@) + pointer_ref_class(name@));
}

pub fn pointer_type(ops: &mut Vec<Op>, doc: &Documentation, dep: &Option<String>, name: &str)
    ensures
        pieces(final(ops)@) == pieces(old(ops)@) + pointer_type_pieces(
            doc_lines(*doc),
            opt_view(*dep),
            name@,
        ),
{
    let ghost s0 = pieces(ops@);
    documentation(ops, doc);
    deprecated(ops, dep);
    pointer_class_ops(ops, name);
    documentation(ops, doc);
    deprecated(ops, dep);
    pointer_ref_class_ops(ops, name);
    assert(pieces(ops@) =~= s0 + pointer_type_pieces(doc_lines(*doc), opt_view(*dep), name@));
}

/// The value class of an integer wrapper, up to its extra members.
pub open spec fn integer_class_head(name: Seq<char>, t: JnaIntegerType) -> Seq<Piece> {
    seq![
        txt("class "@), txt(name), txt(" extends IntegerType"@), Piece::OpenBrace,
        txt("public "@), txt(name), txt("()"@), Piece::OpenBrace,
        txt("super("@), txt(size_text(t)), txt(");"@), Piece::CloseBrace,
        Piece::NewLine, Piece::NewLine,
        txt("public "@), txt(name), txt("(long value)"@), Piece::OpenBrace,
        txt("super("@), txt(size_text(t)), txt(", value);"@), Piece::CloseBrace,
        Piece::NewLine, Piece::NewLine,
        txt("public "@), txt(name), txt("(Pointer p)"@), Piece::OpenBrace,
        txt("this(p."@), txt(get_method_text(t)), txt(");"@), Piece::CloseBrace,
        Piece::NewLine,
    ]
}

/// The reference class of an integer wrapper, after the value class.
pub open spec fn integer_ref_class(name: Seq<char>, t: JnaIntegerType) -> Seq<Piece> {
    seq![
        Piece::CloseBrace, Piece::NewLine, Piece::NewLine,
        txt("class "@), txt(name), txt("ByReference extends ByReference"@), Piece::OpenBrace,
        txt("public "@), txt(name), txt("ByReference()"@), Piece::OpenBrace,
        txt("super("@), txt(size_text(t)), txt(");"@), Piece::CloseBrace,
        Piece::NewLine, Piece::NewLine,
        txt("public "@), txt(name), txt("ByReference(Pointer p)"@), Piece::OpenBrace,
        txt("super("@), txt(size_text(t)), txt(");"@), Piece::NewLine,
        txt("setPointer(p);"@), Piece::CloseBrace,
        Piece::NewLine, Piece::NewLine,
        txt("public "@), txt(name), txt(" getValue()"@), Piece::OpenBrace,
        txt("return new "@), txt(name), txt("(getPointer()."@), txt(get_method_text(t)),
        txt(");"@), Piece::CloseBrace,
        Piece::NewLine, Piece::NewLine,
        txt("public void setValue("@), txt(name), txt(" value)"@), Piece::OpenBrace,
        txt("getPointer()."@), txt(set_method_text(t)), txt(";"@), Piece::CloseBrace,
        Piece::NewLine,
        Piece::CloseBrace,
    ]
}

/// An integer wrapper: a value class (default, from a raw value, from a
/// native pointer, then `extra`) and a reference class with `getValue` and
/// `setValue`.
pub open spec fn integer_type_pieces(
    doc: Seq<Seq<char>>,
    name: Seq<char>,
    t: JnaIntegerType,
    dep: Option<Seq<char>>,
    extra: Seq<Piece>,
) -> Seq<Piece> {
    doc_pieces(doc) + deprecated_pieces(dep) + integer_class_head(name, t) + extra
        + integer_ref_class(name, t)
}

#[verifier::rlimit(40)]
fn integer_class_head_ops(ops: &mut Vec<Op>, name: &str, t: JnaIntegerType)
    ensures
        pieces(final(ops)@) == pieces(old(ops)@) + integer_class_head(name@, t),
{
    let size = t.size();
    text(ops, "class ");
    text(ops, name);
    text(ops, " extends IntegerType");
    open_brace(ops);
    text(ops, "public ");
    text(ops, name);
    text(ops, "()");
    open_brace(ops);
    text(ops, "super(");
    text(ops, size);
    text(ops, ");");
    close_brace(ops);
    new_line(ops);
    new_line(ops);
    text(ops, "public ");
    text(ops, name);
    text(ops, "(long value)");
    open_brace(ops);
    text(ops, "super(");
    text(ops, size);
    text(ops, ", value);");
    close_brace(ops);
    new_line(ops);
    new_line(ops);
    text(ops, "public ");
    text(ops, name);
    text(ops, "(Pointer p)");
    open_brace(ops);
    text(ops, "this(p.");
    text(ops, t.get_method());
    text(ops, ");");
    close_brace(ops);
    new_line(ops);
    assert(pieces(ops@) =~= pieces(old(ops)@) + integer_class_head(name@, t));
}

#[verifier::rlimit(40)]
fn integer_ref_class_ops(ops: &mut Vec<Op>, name: &str, t: JnaIntegerType)
    ensures
        pieces(final(ops)@) == pieces(old(ops)@) + integer_ref_class(name@, t),
{
    let size = t.size();
    close_brace(ops);
    new_line(ops);
    new_line(ops);
    text(ops, "class ");
    text(ops, name);
    text(ops, "ByReference extends ByReference");
    open_brace(ops);
    text(ops, "public ");
    text(ops, name);
    text(ops, "ByReference()");
    open_brace(ops);
    text(ops, "super(");
    text(ops, size);
    text(ops, ");");
    close_brace(ops);
    new_line(ops);
    new_line(ops);
    text(ops, "public ");
    text(ops, name);
    text(ops, "ByReference(Pointer p)");
    open_brace(ops);
    text(ops, "super(");
    text(ops, size);
    text(ops, ");");
    new_line(ops);
    text(ops, "setPointer(p);");
    close_brace(ops);
    new_line(ops);
    new_line(ops);
    text(ops, "public ");
    text(ops, name);
    text(ops, " getValue()");
    open_brace(ops);
    text(ops, "return new ");
    text(ops, name);
    text(ops, "(getPointer().");
    text(ops, t.get_method());
    text(ops, ");");
    close_brace(ops);
    new_line(ops);
    new_line(ops);
    text(ops, "public void setValue(");
    text(ops, name);
    text(ops, " value)");
    open_brace(ops);
    text(ops, "getPointer().");
    text(ops, t.set_method());
    text(ops, ";");
    close_brace(ops);
    new_line(ops);
    close_brace(ops);
    assert(pieces(ops@) =~= pieces(old(ops)@) + integer_ref_class(name@, t));
}

pub fn integer_type(
    ops: &mut Vec<Op>,
    doc: &Documentation,
    name: &str,
    t: JnaIntegerType,
    dep: &Option<String>,
    extra: Vec<Op>,
)
    ensures
        pieces(final(ops)@) == pieces(old(ops)@) + integer_type_pieces(
            doc_lines(*doc),
            name@,
            t,
            opt_view(*dep),
            pieces(extra@),
        ),
{
    let ghost s0 = pieces(ops@);
    let ghost e = pieces(extra@);
    documentation(ops, doc);
    deprecated(ops, dep);
    integer_class_head_ops(ops, name, t);
    append_ops(ops, extra);
    integer_ref_class_ops(ops, name, t);
    assert(pieces(ops@) =~= s0 + integer_type_pieces(doc_lines(*doc), name@, t, opt_view(*dep), e));
}

/// A constant as a static field, or a marked placeholder when its value
/// cannot be written in Java.
pub open spec fn constant_pieces(c: Constant) -> Seq<Piece> {
    doc_pieces(doc_lines(c.documentation)) + if writable_literal(c.ty, c.value) {
        match c.value {
            Literal::Expr(e) => seq![
                txt("public static final "@), txt(java_name(c.ty)), txt(" "@),
                txt(c.export_name@), txt(" = "@), txt(wrapped_expr(e@, c.ty)), txt(";"@),
                Piece::NewLine,
            ],
            _ => Seq::empty(),
        }
    } else {
        seq![
            txt("/* Not implemented yet : constant "@), txt(c.export_name@), txt(" */"@),
            Piece::NewLine,
        ]
    }
}

pub open spec fn constants_pieces(cs: Seq<Constant>) -> Seq<Piece>
    decreases cs.len(),
{
    if cs.len() == 0 {
        Seq::empty()
    } else {
        constants_pieces(cs.drop_last()) + constant_pieces(cs.last())
    }
}

pub fn constant(ops: &mut Vec<Op>, c: &Constant)
    ensures
        pieces(final(ops)@) == pieces(old(ops)@) + constant_pieces(*c),
{
    let ghost s0 = pieces(ops@);
    documentation(ops, &c.documentation);
    let ghost s1 = pieces(ops@);
    if java_writable_literal(&c.ty, &c.value) {
        match &c.value {
            Literal::Expr(e) => {
                text(ops, "public static final ");
                text(ops, java_type_name(&c.ty).as_str());
                text(ops, " ");
                text(ops, c.export_name.as_str());
                text(ops, " = ");
                text(ops, wrap_java_value(e.as_str(), &c.ty).as_str());
                text(ops, ";");
                new_line(ops);
            },
            _ => {},
        }
    } else {
        text(ops, "/* Not implemented yet : constant ");
        text(ops, c.export_name.as_str());
        text(ops, " */");
        new_line(ops);
    }
    assert(pieces(ops@) =~= s0 + constant_pieces(*c));
}

pub fn constants(ops: &mut Vec<Op>, cs: &Vec<Constant>)
    ensures
        pieces(final(ops)@) == pieces(old(ops)@) + constants_pieces(cs@),
{
    let ghost s0 = pieces(ops@);
    let n = cs.len();
    let mut i: usize = 0;
    assert(cs@.subrange(0, 0) =~= Seq::<Constant>::empty());
    assert(pieces(ops@) =~= s0 + constants_pieces(cs@.subrange(0, 0)));
    while i < n
        invariant
            i <= n,
            n == cs.len(),
            pieces(ops@) == s0 + constants_pieces(cs@.subrange(0, i as int)),
        decreases n - i,
    {
        constant(ops, &cs[i]);
        i = i + 1;
        proof {
            let sub = cs@.subrange(0, i as int);
            assert(sub.drop_last() =~= cs@.subrange(0, i - 1));
            assert(pieces(ops@) =~= s0 + constants_pieces(sub));
        }
    }
    assert(cs@.subrange(0, n as int) =~= cs@);
}

/// A public field of the mapped type, after the field's documentation.
pub open spec fn field_pieces(f: Field) -> Seq<Piece> {
    doc_pieces(doc_lines(f.documentation)) + seq![
        txt("public "@), txt(java_name(f.ty)), txt(" "@), txt(f.name@), txt(";"@),
        Piece::NewLine,
    ]
}

pub open spec fn fields_pieces(fs: Seq<Field>) -> Seq<Piece>
    decreases fs.len(),
{
    if fs.len() == 0 {
        Seq::empty()
    } else {
        fields_pieces(fs.drop_last()) + field_pieces(fs.last())
    }
}

fn fields(ops: &mut Vec<Op>, fs: &Vec<Field>)
    ensures
        pieces(final(ops)@) == pieces(old(ops)@) + fields_pieces(fs@),
{
    let ghost s0 = pieces(ops@);
    let n = fs.len();
    let mut i: usize = 0;
    assert(fs@.subrange(0, 0) =~= Seq::<Field>::empty());
    assert(pieces(ops@) =~= s0 + fields_pieces(fs@.subrange(0, 0)));
    while i < n
        invariant
            i <= n,
            n == fs.len(),
            pieces(ops@) == s0 + fields_pieces(fs@.subrange(0, i as int)),
        decreases n - i,
    {
        let ghost s1 = pieces(ops@);
        let f = &fs[i];
        documentation(ops, &f.documentation);
        text(ops, "public ");
        text(ops, java_type_name(&f.ty).as_str());
        text(ops, " ");
        text(ops, f.name.as_str());
        text(ops, ";");
        new_line(ops);
        i = i + 1;
        proof {
            let sub = fs@.subrange(0, i as int);
            assert(sub.drop_last() =~= fs@.subrange(0, i - 1));
            assert(pieces(ops@) =~= s1 + field_pieces(*f));
            assert(pieces(ops@) =~= s0 + fields_pieces(sub));
        }
    }
    assert(fs@.subrange(0, n as int) =~= fs@);
}

pub open spec fn quoted(s: Seq<char>) -> Seq<char> {
    "\""@ + s + "\""@
}

pub open spec fn quoted_names(fs: Seq<Field>) -> Seq<Seq<char>> {
    fs.map_values(|f: Field| quoted(f.name@))
}

/// The field order annotation, laid out on one line when it fits the limit
/// and one name per line otherwise; nothing for a class without fields.
pub open spec fn field_order_pieces(fs: Seq<Field>, limit: nat) -> Seq<Piece> {
    if fs.len() == 0 {
        Seq::empty()
    } else {
        seq![
            txt("@Structure.FieldOrder({"@),
            Piece::List {
                items: quoted_names(fs),
                sep: ", "@,
                vsep: ","@,
                layout: Layout::Auto,
                limit,
            },
            txt("})"@),
            Piece::NewLine,
        ]
    }
}

fn field_order(ops: &mut Vec<Op>, fs: &Vec<Field>, limit: usize)
    ensures
        pieces(final(ops)@) == pieces(old(ops)@) + field_order_pieces(fs@, limit as nat),
{
    let ghost s0 = pieces(ops@);
    let n = fs.len();
    if n == 0 {
        assert(pieces(ops@) =~= s0 + field_order_pieces(fs@, limit as nat));
        return;
    }
    let mut items: Vec<String> = Vec::new();
    let mut i: usize = 0;
    while i < n
        invariant
            i <= n,
            n == fs.len(),
            items@.len() == i,
            forall|j: int| 0 <= j < i ==> (#[trigger] items@[j])@ == quoted(fs@[j].name@),
        decreases n - i,
    {
        let mut q = String::from_str("\"");
        q.append(fs[i].name.as_str());
        q.append("\"");
        items.push(q);
        i = i + 1;
    }
    assert(string_views(items@) =~= quoted_names(fs@));
    text(ops, "@Structure.FieldOrder({");
    push_op(
        ops,
        Op::List {
            items,
            sep: String::from_str(", "),
            vsep: String::from_str(","),
            layout: Layout::Auto,
            limit,
        },
    );
    text(ops, "})");
    new_line(ops);
    assert(pieces(ops@) =~= s0 + field_order_pieces(fs@, limit as nat));
}

/// The constructors every JNA structure class has.
pub open spec fn struct_constructors(name: Seq<char>) -> Seq<Piece> {
    seq![
        txt("public "@), txt(name), txt("()"@), Piece::OpenBrace,
        txt("super();"@), Piece::CloseBrace, Piece::NewLine, Piece::NewLine,
        txt("public "@), txt(name), txt("(Pointer p)"@), Piece::OpenBrace,
        txt("super(p);"@), Piece::CloseBrace, Piece::NewLine, Piece::NewLine,
    ]
}

/// A JNA structure class: field order, class header, constants,
/// constructors, then one public field per IR field.
pub open spec fn jna_struct_pieces(
    doc: Seq<Seq<char>>,
    dep: Option<Seq<char>>,
    cs: Seq<Constant>,
    fs: Seq<Field>,
    name: Seq<char>,
    superclass: Seq<char>,
    interface: Seq<char>,
    limit: nat,
) -> Seq<Piece> {
    seq![Piece::NewLine] + doc_pieces(doc) + deprecated_pieces(dep) + field_order_pieces(fs, limit)
        + seq![
        txt("class "@), txt(name), txt(" extends "@), txt(superclass), txt(" implements "@),
        txt(interface), Piece::OpenBrace,
    ] + constants_pieces(cs) + struct_constructors(name) + fields_pieces(fs) + seq![
        Piece::CloseBrace,
        Piece::NewLine,
    ]
}

fn struct_constructors_ops(ops: &mut Vec<Op>, name: &str)
    ensures
        pieces(final(ops)@) == pieces(old(ops)@) + struct_constructors(name@),
{
    text(ops, "public ");
    text(ops, name);
    text(ops, "()");
    open_brace(ops);
    text(ops, "super();");
    close_brace(ops);
    new_line(ops);
    new_line(ops);
    text(ops, "public ");
    text(ops, name);
    text(ops, "(Pointer p)");
    open_brace(ops);
    text(ops, "super(p);");
    close_brace(ops);
    new_line(ops);
    new_line(ops);
    assert(pieces(ops@) =~= pieces(old(ops)@) + struct_constructors(name@));
}

#[verifier::rlimit(40)]
pub fn jna_struct(
    ops: &mut Vec<Op>,
    doc: &Documentation,
    dep: &Option<String>,
    cs: &Vec<Constant>,
    fs: &Vec<Field>,
    name: &str,
    superclass: &str,
    interface: &str,
    limit: usize,
)
    ensures
        pieces(final(ops)@) == pieces(old(ops)@) + jna_struct_pieces(
            doc_lines(*doc),
            opt_view(*dep),
            cs@,
            fs@,
            name@,
            superclass@,
            interface@,
            limit as nat,
        ),
{
    let ghost s0 = pieces(ops@);
    new_line(ops);
    documentation(ops, doc);
    deprecated(ops, dep);
    field_order(ops, fs, limit);
    let ghost s1 = pieces(ops@);
    text(ops, "class ");
    text(ops, name);
    text(ops, " extends ");
    text(ops, superclass);
    text(ops, " implements ");
    text(ops, interface);
    open_brace(ops);
    let ghost s2 = pieces(ops@);
    constants(ops, cs);
    struct_constructors_ops(ops, name);
    fields(ops, fs);
    close_brace(ops);
    new_line(ops);
    assert(pieces(ops@) =~= s0 + jna_struct_pieces(
        doc_lines(*doc),
        opt_view(*dep),
        cs@,
        fs@,
        name@,
        superclass@,
        interface@,
        limit as nat,
    ));
}

} // verus!
