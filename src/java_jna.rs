//! The Java/JNA backend: one emitter per kind of declaration, plus the file
//! header and the enclosing interface.
use vstd::prelude::*;
use vstd::string::*;

use crate::classes::{
    constants, constants_pieces, integer_type, integer_type_pieces, jna_struct, jna_struct_pieces,
    pointer_type, pointer_type_pieces,
};
use crate::integer::{jna_kind, JnaIntegerType};
use crate::ir::{
    doc_lines, opt_view, Config, Constant, Documentation, Enum, EnumVariant, Field, Function,
    FunctionArgument, Literal, OpaqueItem, PrimitiveType, Static, Struct, Type, Typedef, Union,
};
use crate::numbers::{int_to_decimal, parse_i32, parse_int, signed_decimal};
use crate::ops::{
    close_brace, deprecated, deprecated_pieces, doc_pieces, documentation, new_line,
    new_line_if_not_start, open_brace, push_op, text, txt,
};
use crate::types::{arg_text, java_arg_text, java_name, java_type_name};
use crate::writer::{pieces, run, string_views, Op, Piece, SourceWriter};

verus! {

/// Emits Java/JNA declarations for one native library.
pub struct JavaJnaLanguageBackend<'a> {
    pub config: &'a Config,
    /// The name under which the generated code loads the native library.
    pub binding_lib_crate_name: String,
}

/// Whether the enclosing scaffold is opened or closed.
#[derive(Clone, Copy, Debug, PartialEq, Eq, Structural)]
pub enum NamespaceOperation {
    Open,
    Close,
}

/// A marked placeholder for a declaration that has no Java form.
pub open spec fn not_implemented_pieces(what: Seq<char>, name: Seq<char>) -> Seq<Piece> {
    seq![txt("/* Not implemented yet : "@), txt(what), txt(" "@), txt(name), txt(" */"@)]
}

fn not_implemented(ops: &mut Vec<Op>, what: &str, name: &str)
    ensures
        pieces(final(ops)@) == pieces(old(ops)@) + not_implemented_pieces(what@, name@),
{
    text(ops, "/* Not implemented yet : ");
    text(ops, what);
    text(ops, " ");
    text(ops, name);
    text(ops, " */");
    assert(pieces(ops@) =~= pieces(old(ops)@) + not_implemented_pieces(what@, name@));
}

pub open spec fn literal_kind(l: Literal) -> Seq<char> {
    match l {
        Literal::Expr(_) => "Expr"@,
        Literal::Path { .. } => "Path"@,
        Literal::PostfixUnaryOp { .. } => "PostfixUnaryOp"@,
        Literal::BinOp { .. } => "BinOp"@,
        Literal::FieldAccess { .. } => "FieldAccess"@,
        Literal::Struct { .. } => "Struct"@,
        Literal::Cast { .. } => "Cast"@,
    }
}

/// An expression as written; any other literal as a marked placeholder.
pub open spec fn literal_pieces(l: Literal) -> Seq<Piece> {
    match l {
        Literal::Expr(e) => seq![txt(e@)],
        Literal::Struct { export_name, .. } => seq![
            txt("/* Not implemented yet : \"Struct Literal "@),
            txt(export_name@),
            txt("\" */"@),
        ],
        _ => seq![txt("/* Not implemented yet : "@), txt(literal_kind(l)), txt(" literal */"@)],
    }
}

fn literal_kind_of(l: &Literal) -> (r: &'static str)
    ensures
        r@ == literal_kind(*l),
{
    match l {
        Literal::Expr(_) => "Expr",
        Literal::Path { .. } => "Path",
        Literal::PostfixUnaryOp { .. } => "PostfixUnaryOp",
        Literal::BinOp { .. } => "BinOp",
        Literal::FieldAccess { .. } => "FieldAccess",
        Literal::Struct { .. } => "Struct",
        Literal::Cast { .. } => "Cast",
    }
}

pub open spec fn by_reference(name: Seq<char>) -> Seq<char> {
    name + "ByReference"@
}

fn by_reference_name(name: &str) -> (r: String)
    ensures
        r@ == by_reference(name@),
{
    let mut s = String::from_str(name);
    s.append("ByReference");
    s
}

/// A struct: a by-value and a by-reference structure class; a transparent
/// struct is instead represented by what its sole field's type calls for.
pub open spec fn struct_pieces(cfg: Config, s: Struct) -> Seq<Piece> {
    let doc = doc_lines(s.documentation);
    let dep = opt_view(s.deprecated);
    let cs = s.associated_constants@;
    let name = s.export_name@;
    let limit = cfg.line_length as nat;
    if s.is_transparent {
        if s.fields@.len() == 0 {
            not_implemented_pieces("struct"@, name)
        } else {
            match s.fields@[0].ty {
                Type::Primitive(PrimitiveType::Integer { kind, .. }) => integer_type_pieces(
                    doc,
                    name,
                    jna_kind(kind),
                    dep,
                    constants_pieces(cs),
                ),
                Type::Path(p) => jna_struct_pieces(
                    doc,
                    dep,
                    cs,
                    Seq::empty(),
                    name,
                    p@,
                    "Structure.ByValue"@,
                    limit,
                ) + jna_struct_pieces(
                    doc,
                    dep,
                    cs,
                    Seq::empty(),
                    by_reference(name),
                    by_reference(p@),
                    "Structure.ByReference"@,
                    limit,
                ),
                Type::Array(..) => pointer_type_pieces(doc, dep, name),
                _ => not_implemented_pieces("struct"@, name),
            }
        }
    } else {
        jna_struct_pieces(doc, dep, cs, s.fields@, name, "Structure"@, "Structure.ByValue"@, limit)
            + jna_struct_pieces(
            doc,
            dep,
            cs,
            s.fields@,
            by_reference(name),
            "Structure"@,
            "Structure.ByReference"@,
            limit,
        )
    }
}

/// A transparent struct is emitted by the tag of its sole field's type
/// alone: an integer field gives an integer wrapper (no structure class), a
/// named type gives two classes that subclass that type's classes, an array
/// gives a pointer wrapper whatever its element type and length.
pub proof fn transparent_struct_follows_field_type(cfg: Config, s: Struct, other: Struct)
    requires
        s.is_transparent,
        s.fields@.len() > 0,
    ensures
        s.fields@[0].ty matches Type::Primitive(PrimitiveType::Integer { kind, .. })
            ==> struct_pieces(cfg, s) == integer_type_pieces(
            doc_lines(s.documentation),
            s.export_name@,
            jna_kind(kind),
            opt_view(s.deprecated),
            constants_pieces(s.associated_constants@),
        ),
        s.fields@[0].ty matches Type::Path(p) ==> struct_pieces(cfg, s) == jna_struct_pieces(
            doc_lines(s.documentation),
            opt_view(s.deprecated),
            s.associated_constants@,
            Seq::empty(),
            s.export_name@,
            p@,
            "Structure.ByValue"@,
            cfg.line_length as nat,
        ) + jna_struct_pieces(
            doc_lines(s.documentation),
            opt_view(s.deprecated),
            s.associated_constants@,
            Seq::empty(),
            by_reference(s.export_name@),
            by_reference(p@),
            "Structure.ByReference"@,
            cfg.line_length as nat,
        ),
        (s.fields@[0].ty matches Type::Array(..)) ==> struct_pieces(cfg, s) == pointer_type_pieces(
            doc_lines(s.documentation),
            opt_view(s.deprecated),
            s.export_name@,
        ),
        (s.fields@[0].ty matches Type::Array(..)) && other.is_transparent && other.fields@.len() > 0
            && (other.fields@[0].ty matches Type::Array(..)) && other.export_name@ == s.export_name@
            && other.documentation == s.documentation && other.deprecated == s.deprecated
            ==> struct_pieces(cfg, other) == struct_pieces(cfg, s),
{
}

/// A union: a by-value and a by-reference union class.
pub open spec fn union_pieces(cfg: Config, u: Union) -> Seq<Piece> {
    let doc = doc_lines(u.documentation);
    let dep = opt_view(u.deprecated);
    let limit = cfg.line_length as nat;
    jna_struct_pieces(doc, dep, Seq::empty(), u.fields@, u.export_name@, "Union"@, "Structure.ByValue"@, limit)
        + jna_struct_pieces(
        doc,
        dep,
        Seq::empty(),
        u.fields@,
        by_reference(u.export_name@),
        "Union"@,
        "Structure.ByReference"@,
        limit,
    )
}

impl<'a> JavaJnaLanguageBackend<'a> {
    pub fn new(config: &'a Config, binding_lib_crate_name: String) -> (r: Self)
        ensures
            r.config == config,
            r.binding_lib_crate_name == binding_lib_crate_name,
    {
        Self { config, binding_lib_crate_name }
    }

    fn finish(out: &mut SourceWriter, ops: &Vec<Op>, expected: Ghost<Seq<Piece>>)
        requires
            pieces(ops@) == Seq::<Piece>::empty() + expected@,
        ensures
            final(out)@ == run(old(out)@, expected@),
    {
        assert(pieces(ops@) =~= expected@);
        out.emit(ops);
    }

    pub fn write_documentation(&self, out: &mut SourceWriter, d: &Documentation)
        ensures
            final(out)@ == run(old(out)@, doc_pieces(doc_lines(*d))),
    {
        let mut ops: Vec<Op> = Vec::new();
        assert(pieces(ops@) =~= Seq::<Piece>::empty());
        documentation(&mut ops, d);
        Self::finish(out, &ops, Ghost(doc_pieces(doc_lines(*d))));
    }

    /// Writes the Java type name of `t`.
    pub fn write_type(&self, out: &mut SourceWriter, t: &Type)
        ensures
            final(out)@ == run(old(out)@, seq![txt(java_name(*t))]),
    {
        let mut ops: Vec<Op> = Vec::new();
        assert(pieces(ops@) =~= Seq::<Piece>::empty());
        text(&mut ops, java_type_name(t).as_str());
        let ghost expected = seq![txt(java_name(*t))];
        Self::finish(out, &ops, Ghost(expected));
    }

    pub fn write_literal(&self, out: &mut SourceWriter, l: &Literal)
        ensures
            final(out)@ == run(old(out)@, literal_pieces(*l)),
    {
        let mut ops: Vec<Op> = Vec::new();
        assert(pieces(ops@) =~= Seq::<Piece>::empty());
        match l {
            Literal::Expr(e) => {
                text(&mut ops, e.as_str());
                assert(pieces(ops@) =~= Seq::<Piece>::empty() + literal_pieces(*l));
            },
            Literal::Struct { export_name, .. } => {
                text(&mut ops, "/* Not implemented yet : \"Struct Literal ");
                text(&mut ops, export_name.as_str());
                text(&mut ops, "\" */");
                assert(pieces(ops@) =~= Seq::<Piece>::empty() + literal_pieces(*l));
            },
            _ => {
                text(&mut ops, "/* Not implemented yet : ");
                text(&mut ops, literal_kind_of(l));
                text(&mut ops, " literal */");
                assert(pieces(ops@) =~= Seq::<Piece>::empty() + literal_pieces(*l));
            },
        }
        Self::finish(out, &ops, Ghost(literal_pieces(*l)));
    }

    /// Statics have no Java form: writes a placeholder.
    pub fn write_static(&self, out: &mut SourceWriter, s: &Static)
        ensures
            final(out)@ == run(old(out)@, not_implemented_pieces("static"@, s.export_name@)),
    {
        let mut ops: Vec<Op> = Vec::new();
        assert(pieces(ops@) =~= Seq::<Piece>::empty());
        not_implemented(&mut ops, "static", s.export_name.as_str());
        Self::finish(out, &ops, Ghost(not_implemented_pieces("static"@, s.export_name@)));
    }

    /// An opaque item becomes a pointer wrapper.
    pub fn write_opaque_item(&self, out: &mut SourceWriter, o: &OpaqueItem)
        ensures
            final(out)@ == run(
                old(out)@,
                pointer_type_pieces(doc_lines(o.documentation), opt_view(o.deprecated), o.export_name@),
            ),
    {
        let mut ops: Vec<Op> = Vec::new();
        assert(pieces(ops@) =~= Seq::<Piece>::empty());
        pointer_type(&mut ops, &o.documentation, &o.deprecated, o.export_name.as_str());
        Self::finish(
            out,
            &ops,
            Ghost(pointer_type_pieces(doc_lines(o.documentation), opt_view(o.deprecated), o.export_name@)),
        );
    }

    pub fn write_union(&self, out: &mut SourceWriter, u: &Union)
        ensures
            final(out)@ == run(old(out)@, union_pieces(*self.config, *u)),
    {
        let mut ops: Vec<Op> = Vec::new();
        assert(pieces(ops@) =~= Seq::<Piece>::empty());
        let none: Vec<Constant> = Vec::new();
        assert(none@ =~= Seq::<Constant>::empty());
        let by_ref = by_reference_name(u.export_name.as_str());
        let limit = self.config.line_length;
        jna_struct(&mut ops, &u.documentation, &u.deprecated, &none, &u.fields,
            u.export_name.as_str(), "Union", "Structure.ByValue", limit);
        jna_struct(&mut ops, &u.documentation, &u.deprecated, &none, &u.fields,
            by_ref.as_str(), "Union", "Structure.ByReference", limit);
        Self::finish(out, &ops, Ghost(union_pieces(*self.config, *u)));
    }

    pub fn write_struct(&self, out: &mut SourceWriter, s: &Struct)
        ensures
            final(out)@ == run(old(out)@, struct_pieces(*self.config, *s)),
    {
        let mut ops: Vec<Op> = Vec::new();
        assert(pieces(ops@) =~= Seq::<Piece>::empty());
        let limit = self.config.line_length;
        let name = s.export_name.as_str();
        let by_ref = by_reference_name(name);
        if s.is_transparent {
            if s.fields.len() == 0 {
                not_implemented(&mut ops, "struct", name);
            } else {
                match &s.fields[0].ty {
                    Type::Primitive(PrimitiveType::Integer { kind, .. }) => {
                        let mut extra: Vec<Op> = Vec::new();
                        assert(pieces(extra@) =~= Seq::<Piece>::empty());
                        constants(&mut extra, &s.associated_constants);
                        assert(pieces(extra@) =~= constants_pieces(s.associated_constants@));
                        integer_type(&mut ops, &s.documentation, name,
                            JnaIntegerType::from_kind(kind), &s.deprecated, extra);
                    },
                    Type::Path(p) => {
                        let none: Vec<Field> = Vec::new();
                        assert(none@ =~= Seq::<Field>::empty());
                        let parent_ref = by_reference_name(p.as_str());
                        jna_struct(&mut ops, &s.documentation, &s.deprecated,
                            &s.associated_constants, &none, name, p.as_str(),
                            "Structure.ByValue", limit);
                        jna_struct(&mut ops, &s.documentation, &s.deprecated,
                            &s.associated_constants, &none, by_ref.as_str(),
                            parent_ref.as_str(), "Structure.ByReference", limit);
                    },
                    Type::Array(..) => pointer_type(&mut ops, &s.documentation, &s.deprecated, name),
                    _ => not_implemented(&mut ops, "struct", name),
                }
            }
        } else {
            jna_struct(&mut ops, &s.documentation, &s.deprecated, &s.associated_constants,
                &s.fields, name, "Structure", "Structure.ByValue", limit);
            jna_struct(&mut ops, &s.documentation, &s.deprecated, &s.associated_constants,
                &s.fields, by_ref.as_str(), "Structure", "Structure.ByReference", limit);
        }
        Self::finish(out, &ops, Ghost(struct_pieces(*self.config, *s)));
    }
}

/// A variant's own discriminant: its literal, when that reads as a 32-bit
/// signed integer.
pub open spec fn explicit_discriminant(v: EnumVariant) -> Option<int> {
    match v.discriminant {
        Some(Literal::Expr(x)) => parse_i32(x@),
        _ => None,
    }
}

/// The discriminant of variant `i`: its own, else one more than the previous
/// variant's, else 0 for the first.
pub open spec fn discriminant(vs: Seq<EnumVariant>, i: int) -> int
    decreases i,
{
    match explicit_discriminant(vs[i]) {
        Some(d) => d,
        None => if i <= 0 { 0 } else { discriminant(vs, i - 1) + 1 },
    }
}

pub open spec fn variant_pieces(ename: Seq<char>, v: EnumVariant, d: int) -> Seq<Piece> {
    doc_pieces(doc_lines(v.documentation)) + seq![
        txt("public static final "@), txt(ename), txt(" "@), txt(v.export_name@),
        txt(" = new "@), txt(ename), txt("("@), txt(signed_decimal(d)), txt(");"@),
        Piece::NewLine,
    ]
}

/// The static instances of the first `n` variants.
pub open spec fn variants_pieces(ename: Seq<char>, vs: Seq<EnumVariant>, n: int) -> Seq<Piece>
    decreases n,
{
    if n <= 0 {
        Seq::empty()
    } else {
        variants_pieces(ename, vs, n - 1) + variant_pieces(ename, vs[n - 1], discriminant(vs, n - 1))
    }
}

/// An enum: an `int` wrapper with one static instance per variant.
pub open spec fn enum_pieces(e: Enum) -> Seq<Piece> {
    integer_type_pieces(
        doc_lines(e.documentation),
        e.export_name@,
        JnaIntegerType::Int,
        opt_view(e.deprecated),
        variants_pieces(e.export_name@, e.variants@, e.variants@.len() as int),
    )
}

/// Without explicit discriminants, variants are numbered 0, 1, 2, ... in
/// declaration order.
pub proof fn discriminants_count_from_zero(vs: Seq<EnumVariant>, i: int)
    requires
        0 <= i < vs.len(),
        forall|j: int| 0 <= j <= i ==> (#[trigger] vs[j]).discriminant is None,
    ensures
        discriminant(vs, i) == i,
    decreases i,
{
    if i > 0 {
        discriminants_count_from_zero(vs, i - 1);
    }
}

/// After a variant with an explicit discriminant `d` at position `k`,
/// variants without one continue with `d + 1`, `d + 2`, ...
pub proof fn discriminants_resume_after_explicit(vs: Seq<EnumVariant>, k: int, d: int, i: int)
    requires
        0 <= k <= i < vs.len(),
        explicit_discriminant(vs[k]) == Some(d),
        forall|j: int| k < j <= i ==> (#[trigger] vs[j]).discriminant is None,
    ensures
        discriminant(vs, i) == d + (i - k),
    decreases i,
{
    if i > k {
        discriminants_resume_after_explicit(vs, k, d, i - 1);
    }
}

/// A parameter list: `, `-separated, laid out by the configured mode.
pub open spec fn arg_list(cfg: Config, items: Seq<Seq<char>>) -> Piece {
    Piece::List {
        items,
        sep: ", "@,
        vsep: ", "@,
        layout: cfg.function_args,
        limit: cfg.line_length as nat,
    }
}

pub open spec fn arg_items(args: Seq<FunctionArgument>) -> Seq<Seq<char>> {
    Seq::new(args.len(), |i: int| arg_text(args[i].name, args[i].ty, i as nat))
}

pub open spec fn callback_arg_items(args: Seq<(Option<String>, Type)>) -> Seq<Seq<char>> {
    Seq::new(args.len(), |i: int| arg_text(args[i].0, args[i].1, i as nat))
}

/// A function: an interface method declaration.
pub open spec fn function_pieces(cfg: Config, f: Function) -> Seq<Piece> {
    doc_pieces(doc_lines(f.documentation)) + deprecated_pieces(opt_view(f.deprecated)) + seq![
        txt(java_name(f.ret)), txt(" "@), txt(f.name@), txt("("@),
        arg_list(cfg, arg_items(f.args@)), txt(");"@),
    ]
}

/// Two classes that subclass the named type's by-value and by-reference
/// classes.
pub open spec fn subclass_pieces(doc: Seq<Seq<char>>, name: Seq<char>, parent: Seq<char>) -> Seq<Piece> {
    doc_pieces(doc) + subclass_value(name, parent) + doc_pieces(doc) + subclass_ref(name, parent)
}

pub open spec fn subclass_value(name: Seq<char>, parent: Seq<char>) -> Seq<Piece> {
    seq![
        txt("class "@), txt(name), txt(" extends "@), txt(parent), Piece::OpenBrace,
        txt("public "@), txt(name), txt("()"@), Piece::OpenBrace,
        txt("super();"@), Piece::CloseBrace, Piece::NewLine,
        txt("public "@), txt(name), txt("(Pointer p)"@), Piece::OpenBrace,
        txt("super(p);"@), Piece::CloseBrace,
        Piece::CloseBrace, Piece::NewLine, Piece::NewLine,
    ]
}

pub open spec fn subclass_ref(name: Seq<char>, parent: Seq<char>) -> Seq<Piece> {
    seq![
        txt("class "@), txt(name), txt("ByReference extends "@), txt(parent), txt("ByReference"@),
        Piece::OpenBrace,
        txt("public "@), txt(name), txt("ByReference()"@), Piece::OpenBrace,
        txt("super();"@), Piece::CloseBrace, Piece::NewLine,
        txt("public "@), txt(name), txt("ByReference(Pointer p)"@), Piece::OpenBrace,
        txt("super(p);"@), Piece::CloseBrace,
        Piece::CloseBrace,
    ]
}

/// A typedef, by the kind of the aliased type.
pub open spec fn typedef_pieces(cfg: Config, t: Typedef) -> Seq<Piece> {
    let doc = doc_lines(t.documentation);
    let dep = opt_view(t.deprecated);
    let name = t.export_name@;
    match t.aliased {
        Type::FuncPtr { ret, args, .. } => seq![
            txt("interface "@), txt(name), txt(" extends Callback"@), Piece::OpenBrace,
            txt(java_name(*ret)), txt(" invoke("@), arg_list(cfg, callback_arg_items(args@)),
            txt(");"@), Piece::CloseBrace,
        ],
        Type::Path(p) => subclass_pieces(doc, name, p@),
        Type::Primitive(PrimitiveType::Integer { kind, .. }) => integer_type_pieces(
            doc,
            name,
            jna_kind(kind),
            dep,
            Seq::empty(),
        ),
        Type::Primitive(_) => not_implemented_pieces("typedef"@, name),
        Type::Ptr { .. } | Type::Array(..) => pointer_type_pieces(doc, dep, name),
    }
}

pub open spec fn interface_name(cfg: Config) -> Seq<char> {
    match cfg.interface_name {
        Some(n) => n@,
        None => "Bindings"@,
    }
}

/// The file header: optional header text, generator line, warning and
/// package, then the two JNA imports.
pub open spec fn headers_pieces(cfg: Config) -> Seq<Piece> {
    (match cfg.header {
        Some(h) => seq![Piece::NewLineIfNotStart, txt(h@), Piece::NewLine],
        None => Seq::empty(),
    }) + (if cfg.include_version {
        seq![
            Piece::NewLineIfNotStart, txt("/* Generated with "@), txt(cfg.version@), txt(" */"@),
            Piece::NewLine,
        ]
    } else {
        Seq::empty()
    }) + (match cfg.autogen_warning {
        Some(w) => seq![Piece::NewLineIfNotStart, txt(w@), Piece::NewLine],
        None => Seq::empty(),
    }) + (match cfg.package {
        Some(p) => seq![
            Piece::NewLineIfNotStart, txt("package "@), txt(p@), txt(";"@), Piece::NewLine,
            Piece::NewLine,
        ],
        None => Seq::empty(),
    }) + seq![
        txt("import com.sun.jna.*;"@), Piece::NewLine, txt("import com.sun.jna.ptr.*;"@),
        Piece::NewLine,
    ]
}

/// Opening: a singleton that loads the library, then the interface that
/// exposes it, with the extra definitions. Closing: the interface's brace.
pub open spec fn namespace_pieces(cfg: Config, lib: Seq<char>, op: NamespaceOperation) -> Seq<Piece> {
    let n = interface_name(cfg);
    match op {
        NamespaceOperation::Open => seq![
            Piece::NewLineIfNotStart, txt("enum "@), txt(n), txt("Singleton"@), Piece::OpenBrace,
            txt("INSTANCE;"@), Piece::NewLine,
            txt("final "@), txt(n), txt(" lib = Native.load(\""@), txt(lib), txt("\", "@), txt(n),
            txt(".class);"@), Piece::CloseBrace, Piece::NewLine, Piece::NewLine,
            txt("interface "@), txt(n), txt(" extends Library"@), Piece::OpenBrace,
            txt(n), txt(" INSTANCE = "@), txt(n), txt("Singleton.INSTANCE.lib;"@), Piece::NewLine,
        ] + match cfg.extra_defs {
            Some(x) => seq![txt(x@), Piece::NewLine],
            None => Seq::empty(),
        },
        NamespaceOperation::Close => seq![Piece::CloseBrace],
    }
}

fn variants(ops: &mut Vec<Op>, e: &Enum)
    ensures
        pieces(final(ops)@) == pieces(old(ops)@) + variants_pieces(
            e.export_name@,
            e.variants@,
            e.variants@.len() as int,
        ),
{
    let ghost s0 = pieces(ops@);
    let ghost vs = e.variants@;
    let name = e.export_name.as_str();
    let n = e.variants.len();
    let mut current: i128 = 0;
    let mut i: usize = 0;
    assert(pieces(ops@) =~= s0 + variants_pieces(name@, vs, 0));
    while i < n
        invariant
            i <= n,
            n == vs.len(),
            vs == e.variants@,
            name@ == e.export_name@,
            pieces(ops@) == s0 + variants_pieces(name@, vs, i as int),
            i > 0 ==> current == discriminant(vs, i - 1),
            i32::MIN <= current <= i32::MAX + i,
        decreases n - i,
    {
        let ghost s1 = pieces(ops@);
        let v = &e.variants[i];
        let explicit: Option<i32> = match &v.discriminant {
            Some(Literal::Expr(x)) => parse_int(x.as_str()),
            _ => None,
        };
        current = match explicit {
            Some(d) => d as i128,
            None => if i == 0 { 0 } else { current + 1 },
        };
        assert(current == discriminant(vs, i as int));
        documentation(ops, &v.documentation);
        text(ops, "public static final ");
        text(ops, name);
        text(ops, " ");
        text(ops, v.export_name.as_str());
        text(ops, " = new ");
        text(ops, name);
        text(ops, "(");
        text(ops, int_to_decimal(current).as_str());
        text(ops, ");");
        new_line(ops);
        assert(pieces(ops@) =~= s1 + variant_pieces(name@, vs[i as int], current as int));
        i = i + 1;
    }
}

fn function_arg_items(args: &Vec<FunctionArgument>) -> (r: Vec<String>)
    ensures
        string_views(r@) == arg_items(args@),
{
    let mut items: Vec<String> = Vec::new();
    let n = args.len();
    let mut i: usize = 0;
    while i < n
        invariant
            i <= n,
            n == args@.len(),
            items@.len() == i,
            forall|j: int| 0 <= j < i ==> (#[trigger] items@[j])@ == arg_text(args@[j].name, args@[j].ty, j as nat),
        decreases n - i,
    {
        items.push(java_arg_text(&args[i].name, &args[i].ty, i));
        i = i + 1;
    }
    assert(string_views(items@) =~= arg_items(args@));
    items
}

fn callback_arg_items_of(args: &Vec<(Option<String>, Type)>) -> (r: Vec<String>)
    ensures
        string_views(r@) == callback_arg_items(args@),
{
    let mut items: Vec<String> = Vec::new();
    let n = args.len();
    let mut i: usize = 0;
    while i < n
        invariant
            i <= n,
            n == args@.len(),
            items@.len() == i,
            forall|j: int| 0 <= j < i ==> (#[trigger] items@[j])@ == arg_text(args@[j].0, args@[j].1, j as nat),
        decreases n - i,
    {
        items.push(java_arg_text(&args[i].0, &args[i].1, i));
        i = i + 1;
    }
    assert(string_views(items@) =~= callback_arg_items(args@));
    items
}

impl<'a> JavaJnaLanguageBackend<'a> {
    fn write_indexed_function_args(&self, ops: &mut Vec<Op>, items: Vec<String>)
        ensures
            pieces(final(ops)@) == pieces(old(ops)@).push(arg_list(*self.config, string_views(items@))),
    {
        push_op(
            ops,
            Op::List {
                items,
                sep: String::from_str(", "),
                vsep: String::from_str(", "),
                layout: self.config.function_args,
                limit: self.config.line_length,
            },
        );
    }

    pub fn write_enum(&self, out: &mut SourceWriter, e: &Enum)
        ensures
            final(out)@ == run(old(out)@, enum_pieces(*e)),
    {
        let mut ops: Vec<Op> = Vec::new();
        assert(pieces(ops@) =~= Seq::<Piece>::empty());
        let mut extra: Vec<Op> = Vec::new();
        assert(pieces(extra@) =~= Seq::<Piece>::empty());
        variants(&mut extra, e);
        assert(pieces(extra@) =~= variants_pieces(e.export_name@, e.variants@, e.variants@.len() as int));
        integer_type(&mut ops, &e.documentation, e.export_name.as_str(), JnaIntegerType::Int,
            &e.deprecated, extra);
        Self::finish(out, &ops, Ghost(enum_pieces(*e)));
    }

    pub fn write_function(&self, out: &mut SourceWriter, f: &Function)
        ensures
            final(out)@ == run(old(out)@, function_pieces(*self.config, *f)),
    {
        let mut ops: Vec<Op> = Vec::new();
        assert(pieces(ops@) =~= Seq::<Piece>::empty());
        documentation(&mut ops, &f.documentation);
        deprecated(&mut ops, &f.deprecated);
        let ghost s1 = pieces(ops@);
        text(&mut ops, java_type_name(&f.ret).as_str());
        text(&mut ops, " ");
        text(&mut ops, f.name.as_str());
        text(&mut ops, "(");
        self.write_indexed_function_args(&mut ops, function_arg_items(&f.args));
        text(&mut ops, ");");
        assert(pieces(ops@) =~= Seq::<Piece>::empty() + function_pieces(*self.config, *f));
        Self::finish(out, &ops, Ghost(function_pieces(*self.config, *f)));
    }
}

fn subclass_value_ops(ops: &mut Vec<Op>, name: &str, parent: &str)
    ensures
        pieces(final(ops)@) == pieces(old(ops)@) + subclass_value(name@, parent@),
{
    text(ops, "class ");
    text(ops, name);
    text(ops, " extends ");
    text(ops, parent);
    open_brace(ops);
    text(ops, "public ");
    text(ops, name);
    text(ops, "()");
    open_brace(ops);
    text(ops, "super();");
    close_brace(ops);
    new_line(ops);
    text(ops, "public ");
    text(ops, name);
    text(ops, "(Pointer p)");
    open_brace(ops);
    text(ops, "super(p);");
    close_brace(ops);
    close_brace(ops);
    new_line(ops);
    new_line(ops);
    assert(pieces(ops@) =~= pieces(old(ops)@) + subclass_value(name@, parent@));
}

fn subclass_ref_ops(ops: &mut Vec<Op>, name: &str, parent: &str)
    ensures
        pieces(final(ops)@) == pieces(old(ops)@) + subclass_ref(name@, parent@),
{
    text(ops, "class ");
    text(ops, name);
    text(ops, "ByReference extends ");
    text(ops, parent);
    text(ops, "ByReference");
    open_brace(ops);
    text(ops, "public ");
    text(ops, name);
    text(ops, "ByReference()");
    open_brace(ops);
    text(ops, "super();");
    close_brace(ops);
    new_line(ops);
    text(ops, "public ");
    text(ops, name);
    text(ops, "ByReference(Pointer p)");
    open_brace(ops);
    text(ops, "super(p);");
    close_brace(ops);
    close_brace(ops);
    assert(pieces(ops@) =~= pieces(old(ops)@) + subclass_ref(name@, parent@));
}

fn subclass(ops: &mut Vec<Op>, doc: &Documentation, name: &str, parent: &str)
    ensures
        pieces(final(ops)@) == pieces(old(ops)@) + subclass_pieces(doc_lines(*doc), name@, parent@),
{
    let ghost s0 = pieces(ops@);
    documentation(ops, doc);
    subclass_value_ops(ops, name, parent);
    documentation(ops, doc);
    subclass_ref_ops(ops, name, parent);
    assert(pieces(ops@) =~= s0 + subclass_pieces(doc_lines(*doc), name@, parent@));
}

fn interface_name_of(cfg: &Config) -> (r: &str)
    ensures
        r@ == interface_name(*cfg),
{
    match &cfg.interface_name {
        Some(n) => n.as_str(),
        None => "Bindings",
    }
}

impl<'a> JavaJnaLanguageBackend<'a> {
    pub fn write_type_def(&self, out: &mut SourceWriter, t: &Typedef)
        ensures
            final(out)@ == run(old(out)@, typedef_pieces(*self.config, *t)),
    {
        let mut ops: Vec<Op> = Vec::new();
        assert(pieces(ops@) =~= Seq::<Piece>::empty());
        let name = t.export_name.as_str();
        match &t.aliased {
            Type::FuncPtr { ret, args, .. } => {
                text(&mut ops, "interface ");
                text(&mut ops, name);
                text(&mut ops, " extends Callback");
                open_brace(&mut ops);
                text(&mut ops, java_type_name(&**ret).as_str());
                text(&mut ops, " invoke(");
                self.write_indexed_function_args(&mut ops, callback_arg_items_of(args));
                text(&mut ops, ");");
                close_brace(&mut ops);
                assert(pieces(ops@) =~= Seq::<Piece>::empty() + typedef_pieces(*self.config, *t));
            },
            Type::Path(p) => subclass(&mut ops, &t.documentation, name, p.as_str()),
            Type::Primitive(PrimitiveType::Integer { kind, .. }) => {
                let extra: Vec<Op> = Vec::new();
                assert(pieces(extra@) =~= Seq::<Piece>::empty());
                integer_type(&mut ops, &t.documentation, name, JnaIntegerType::from_kind(kind),
                    &t.deprecated, extra);
            },
            Type::Primitive(_) => not_implemented(&mut ops, "typedef", name),
            Type::Ptr { .. } | Type::Array(..) => pointer_type(&mut ops, &t.documentation,
                &t.deprecated, name),
        }
        Self::finish(out, &ops, Ghost(typedef_pieces(*self.config, *t)));
    }

    pub fn write_headers(&self, out: &mut SourceWriter)
        ensures
            final(out)@ == run(old(out)@, headers_pieces(*self.config)),
    {
        let cfg = self.config;
        let mut ops: Vec<Op> = Vec::new();
        assert(pieces(ops@) =~= Seq::<Piece>::empty());
        if let Some(h) = &cfg.header {
            new_line_if_not_start(&mut ops);
            text(&mut ops, h.as_str());
            new_line(&mut ops);
        }
        let ghost s1 = pieces(ops@);
        if cfg.include_version {
            new_line_if_not_start(&mut ops);
            text(&mut ops, "/* Generated with ");
            text(&mut ops, cfg.version.as_str());
            text(&mut ops, " */");
            new_line(&mut ops);
        }
        let ghost s2 = pieces(ops@);
        if let Some(w) = &cfg.autogen_warning {
            new_line_if_not_start(&mut ops);
            text(&mut ops, w.as_str());
            new_line(&mut ops);
        }
        let ghost s3 = pieces(ops@);
        if let Some(p) = &cfg.package {
            new_line_if_not_start(&mut ops);
            text(&mut ops, "package ");
            text(&mut ops, p.as_str());
            text(&mut ops, ";");
            new_line(&mut ops);
            new_line(&mut ops);
        }
        let ghost s4 = pieces(ops@);
        text(&mut ops, "import com.sun.jna.*;");
        new_line(&mut ops);
        text(&mut ops, "import com.sun.jna.ptr.*;");
        new_line(&mut ops);
        assert(pieces(ops@) =~= Seq::<Piece>::empty() + headers_pieces(*self.config));
        Self::finish(out, &ops, Ghost(headers_pieces(*self.config)));
    }

    pub fn open_close_namespaces(&self, op: NamespaceOperation, out: &mut SourceWriter)
        ensures
            final(out)@ == run(
                old(out)@,
                namespace_pieces(*self.config, self.binding_lib_crate_name@, op),
            ),
    {
        let mut ops: Vec<Op> = Vec::new();
        assert(pieces(ops@) =~= Seq::<Piece>::empty());
        match op {
            NamespaceOperation::Open => {
                let name = interface_name_of(self.config);
                new_line_if_not_start(&mut ops);
                text(&mut ops, "enum ");
                text(&mut ops, name);
                text(&mut ops, "Singleton");
                open_brace(&mut ops);
                text(&mut ops, "INSTANCE;");
                new_line(&mut ops);
                text(&mut ops, "final ");
                text(&mut ops, name);
                text(&mut ops, " lib = Native.load(\"");
                text(&mut ops, self.binding_lib_crate_name.as_str());
                text(&mut ops, "\", ");
                text(&mut ops, name);
                text(&mut ops, ".class);");
                close_brace(&mut ops);
                new_line(&mut ops);
                new_line(&mut ops);
                text(&mut ops, "interface ");
                text(&mut ops, name);
                text(&mut ops, " extends Library");
                open_brace(&mut ops);
                text(&mut ops, name);
                text(&mut ops, " INSTANCE = ");
                text(&mut ops, name);
                text(&mut ops, "Singleton.INSTANCE.lib;");
                new_line(&mut ops);
                let ghost s1 = pieces(ops@);
                if let Some(x) = &self.config.extra_defs {
                    text(&mut ops, x.as_str());
                    new_line(&mut ops);
                }
                assert(pieces(ops@) =~= Seq::<Piece>::empty() + namespace_pieces(
                    *self.config,
                    self.binding_lib_crate_name@,
                    op,
                ));
            },
            NamespaceOperation::Close => {
                close_brace(&mut ops);
                assert(pieces(ops@) =~= Seq::<Piece>::empty() + namespace_pieces(
                    *self.config,
                    self.binding_lib_crate_name@,
                    op,
                ));
            },
        }
        Self::finish(out, &ops, Ghost(namespace_pieces(*self.config, self.binding_lib_crate_name@, op)));
    }

    /// Nothing follows the last declaration.
    pub fn write_footers(&self, out: &mut SourceWriter)
        ensures
            final(out)@ == old(out)@,
    {
    }

    pub fn write_deprecated(&self, out: &mut SourceWriter, dep: &Option<String>)
        ensures
            final(out)@ == run(old(out)@, deprecated_pieces(opt_view(*dep))),
    {
        let mut ops: Vec<Op> = Vec::new();
        assert(pieces(ops@) =~= Seq::<Piece>::empty());
        deprecated(&mut ops, dep);
        Self::finish(out, &ops, Ghost(deprecated_pieces(opt_view(*dep))));
    }

    pub fn write_pointer_type(
        &self,
        out: &mut SourceWriter,
        doc: &Documentation,
        dep: &Option<String>,
        name: &str,
    )
        ensures
            final(out)@ == run(old(out)@, pointer_type_pieces(doc_lines(*doc), opt_view(*dep), name@)),
    {
        let mut ops: Vec<Op> = Vec::new();
        assert(pieces(ops@) =~= Seq::<Piece>::empty());
        pointer_type(&mut ops, doc, dep, name);
        Self::finish(out, &ops, Ghost(pointer_type_pieces(doc_lines(*doc), opt_view(*dep), name@)));
    }

    /// Writes an integer wrapper whose value class also holds `extra`.
    pub fn write_integer_type(
        &self,
        out: &mut SourceWriter,
        doc: &Documentation,
        name: &str,
        t: JnaIntegerType,
        dep: &Option<String>,
        extra: Vec<Op>,
    )
        ensures
            final(out)@ == run(
                old(out)@,
                integer_type_pieces(doc_lines(*doc), name@, t, opt_view(*dep), pieces(extra@)),
            ),
    {
        let ghost e = pieces(extra@);
        let mut ops: Vec<Op> = Vec::new();
        assert(pieces(ops@) =~= Seq::<Piece>::empty());
        integer_type(&mut ops, doc, name, t, dep, extra);
        Self::finish(out, &ops, Ghost(integer_type_pieces(doc_lines(*doc), name@, t, opt_view(*dep), e)));
    }

    /// Writes one JNA structure class with the configured line limit.
    pub fn write_jna_struct(
        &self,
        out: &mut SourceWriter,
        doc: &Documentation,
        dep: &Option<String>,
        cs: &Vec<Constant>,
        fs: &Vec<Field>,
        name: &str,
        superclass: &str,
        interface: &str,
    )
        ensures
            final(out)@ == run(
                old(out)@,
                jna_struct_pieces(
                    doc_lines(*doc),
                    opt_view(*dep),
                    cs@,
                    fs@,
                    name@,
                    superclass@,
                    interface@,
                    self.config.line_length as nat,
                ),
            ),
    {
        let mut ops: Vec<Op> = Vec::new();
        assert(pieces(ops@) =~= Seq::<Piece>::empty());
        jna_struct(&mut ops, doc, dep, cs, fs, name, superclass, interface, self.config.line_length);
        Self::finish(
            out,
            &ops,
            Ghost(jna_struct_pieces(
                doc_lines(*doc),
                opt_view(*dep),
                cs@,
                fs@,
                name@,
                superclass@,
                interface@,
                self.config.line_length as nat,
            )),
        );
    }
}

} // verus!
