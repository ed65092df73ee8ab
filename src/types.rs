//! Java type names for IR types, and Java text for constant values.
use vstd::prelude::*;
use vstd::string::*;

use crate::ir::{IntKind, Literal, PrimitiveType, Type};
use crate::numbers::{decimal, nat_to_decimal};

verus! {

pub open spec fn int_name(k: IntKind) -> Seq<char> {
    match k {
        IntKind::Short | IntKind::B16 => "short"@,
        IntKind::Int | IntKind::B32 => "int"@,
        IntKind::Long | IntKind::SizeT | IntKind::Size => "NativeLong"@,
        IntKind::LongLong | IntKind::B64 => "long"@,
        IntKind::B8 => "byte"@,
    }
}

/// The Java type of a value of a primitive type.
pub open spec fn primitive_name(p: PrimitiveType) -> Seq<char> {
    match p {
        PrimitiveType::Void => "void"@,
        PrimitiveType::Bool => "boolean"@,
        PrimitiveType::Char | PrimitiveType::SChar | PrimitiveType::UChar => "byte"@,
        PrimitiveType::Char32 => "char"@,
        PrimitiveType::Float => "float"@,
        PrimitiveType::Double => "double"@,
        PrimitiveType::VaList | PrimitiveType::PtrDiffT => "Pointer"@,
        PrimitiveType::Integer { kind, .. } => int_name(kind),
    }
}

pub open spec fn int_ref_name(k: IntKind) -> Seq<char> {
    match k {
        IntKind::Short | IntKind::B16 => "ShortByReference"@,
        IntKind::Int | IntKind::B32 => "IntByReference"@,
        IntKind::Long | IntKind::SizeT | IntKind::Size => "NativeLongByReference"@,
        IntKind::LongLong | IntKind::B64 => "LongByReference"@,
        IntKind::B8 => "ByteByReference"@,
    }
}

/// The Java type of a pointer to a primitive type.
pub open spec fn primitive_ref_name(p: PrimitiveType) -> Seq<char> {
    match p {
        PrimitiveType::Void | PrimitiveType::Bool | PrimitiveType::Char32 => "Pointer"@,
        PrimitiveType::Char | PrimitiveType::SChar | PrimitiveType::UChar => "ByteByReference"@,
        PrimitiveType::Float => "FloatByReference"@,
        PrimitiveType::Double => "DoubleByReference"@,
        PrimitiveType::VaList | PrimitiveType::PtrDiffT => "PointerByReference"@,
        PrimitiveType::Integer { kind, .. } => int_ref_name(kind),
    }
}

/// The Java type name of an IR type.
pub open spec fn java_name(t: Type) -> Seq<char>
    decreases t,
{
    match t {
        Type::Ptr { ty, .. } => match *ty {
            Type::Ptr { .. } => "PointerByReference"@,
            Type::Path(p) => p@ + "ByReference"@,
            Type::Primitive(p) => primitive_ref_name(p),
            Type::Array(..) => "Pointer"@,
            Type::FuncPtr { .. } => "CallbackReference"@,
        },
        Type::Path(p) => p@,
        Type::Primitive(p) => primitive_name(p),
        Type::Array(elem, _) => java_name(*elem) + "[]"@,
        Type::FuncPtr { .. } => "Callback"@,
    }
}

fn int_name_of(k: IntKind) -> (r: &'static str)
    ensures
        r@ == int_name(k),
{
    match k {
        IntKind::Short | IntKind::B16 => "short",
        IntKind::Int | IntKind::B32 => "int",
        IntKind::Long | IntKind::SizeT | IntKind::Size => "NativeLong",
        IntKind::LongLong | IntKind::B64 => "long",
        IntKind::B8 => "byte",
    }
}

fn primitive_name_of(p: PrimitiveType) -> (r: &'static str)
    ensures
        r@ == primitive_name(p),
{
    match p {
        PrimitiveType::Void => "void",
        PrimitiveType::Bool => "boolean",
        PrimitiveType::Char | PrimitiveType::SChar | PrimitiveType::UChar => "byte",
        PrimitiveType::Char32 => "char",
        PrimitiveType::Float => "float",
        PrimitiveType::Double => "double",
        PrimitiveType::VaList | PrimitiveType::PtrDiffT => "Pointer",
        PrimitiveType::Integer { kind, .. } => int_name_of(kind),
    }
}

fn int_ref_name_of(k: IntKind) -> (r: &'static str)
    ensures
        r@ == int_ref_name(k),
{
    match k {
        IntKind::Short | IntKind::B16 => "ShortByReference",
        IntKind::Int | IntKind::B32 => "IntByReference",
        IntKind::Long | IntKind::SizeT | IntKind::Size => "NativeLongByReference",
        IntKind::LongLong | IntKind::B64 => "LongByReference",
        IntKind::B8 => "ByteByReference",
    }
}

fn primitive_ref_name_of(p: PrimitiveType) -> (r: &'static str)
    ensures
        r@ == primitive_ref_name(p),
{
    match p {
        PrimitiveType::Void | PrimitiveType::Bool | PrimitiveType::Char32 => "Pointer",
        PrimitiveType::Char | PrimitiveType::SChar | PrimitiveType::UChar => "ByteByReference",
        PrimitiveType::Float => "FloatByReference",
        PrimitiveType::Double => "DoubleByReference",
        PrimitiveType::VaList | PrimitiveType::PtrDiffT => "PointerByReference",
        PrimitiveType::Integer { kind, .. } => int_ref_name_of(kind),
    }
}

/// The Java type name of an IR type; see [`java_name`].
pub fn java_type_name(t: &Type) -> (r: String)
    ensures
        r@ == java_name(*t),
    decreases t,
{
    match t {
        Type::Ptr { ty, .. } => match &**ty {
            Type::Ptr { .. } => String::from_str("PointerByReference"),
            Type::Path(p) => {
                let mut s = String::from_str(p.as_str());
                s.append("ByReference");
                s
            },
            Type::Primitive(p) => String::from_str(primitive_ref_name_of(*p)),
            Type::Array(..) => String::from_str("Pointer"),
            Type::FuncPtr { .. } => String::from_str("CallbackReference"),
        },
        Type::Path(p) => String::from_str(p.as_str()),
        Type::Primitive(p) => String::from_str(primitive_name_of(*p)),
        Type::Array(elem, _) => {
            let mut s = java_type_name(&**elem);
            s.append("[]");
            s
        },
        Type::FuncPtr { .. } => String::from_str("Callback"),
    }
}

pub open spec fn starts_with(s: Seq<char>, p: Seq<char>) -> bool {
    p.len() <= s.len() && s.subrange(0, p.len() as int) == p
}

pub open spec fn ends_with(s: Seq<char>, p: Seq<char>) -> bool {
    p.len() <= s.len() && s.subrange(s.len() - p.len(), s.len() as int) == p
}

/// Whether `s` holds `p` from character `at` on.
fn holds_at(s: &str, p: &str, at: usize) -> (r: bool)
    ensures
        r == (at + p@.len() <= s@.len() && s@.subrange(at as int, at + p@.len()) == p@),
{
    let n = s.unicode_len();
    let m = p.unicode_len();
    if at > n || m > n - at {
        return false;
    }
    let mut i: usize = 0;
    while i < m
        invariant
            i <= m,
            m == p@.len(),
            n == s@.len(),
            at + m <= n,
            forall|j: int| 0 <= j < i ==> s@[at + j] == p@[j],
        decreases m - i,
    {
        if s.get_char(at + i) != p.get_char(i) {
            assert(s@.subrange(at as int, at + m)[i as int] != p@[i as int]);
            return false;
        }
        i = i + 1;
    }
    assert(s@.subrange(at as int, at + m) =~= p@);
    true
}

fn str_starts_with(s: &str, p: &str) -> (r: bool)
    ensures
        r == starts_with(s@, p@),
{
    holds_at(s, p, 0)
}

fn str_ends_with(s: &str, p: &str) -> (r: bool)
    ensures
        r == ends_with(s@, p@),
{
    let n = s.unicode_len();
    let m = p.unicode_len();
    if m > n {
        return false;
    }
    holds_at(s, p, n - m)
}

pub open spec fn is_integer(t: Type) -> bool {
    t matches Type::Primitive(PrimitiveType::Integer { .. })
}

/// Whether a constant of this type and value can be written as a Java
/// field initializer: only expressions are, except integer-typed ones,
/// those that end in `ull`, and 32-bit character escapes.
pub open spec fn writable_literal(t: Type, l: Literal) -> bool {
    match l {
        Literal::Expr(e) => !((t == Type::Primitive(PrimitiveType::Char32) && starts_with(e@, "U'\\U"@))
            || (is_integer(t) || ends_with(e@, "ull"@))),
        _ => false,
    }
}

/// See [`writable_literal`].
pub fn java_writable_literal(ty: &Type, literal: &Literal) -> (r: bool)
    ensures
        r == writable_literal(*ty, *literal),
{
    match literal {
        Literal::Expr(e) => {
            let char32 = match ty {
                Type::Primitive(PrimitiveType::Char32) => true,
                _ => false,
            };
            let integer = match ty {
                Type::Primitive(PrimitiveType::Integer { .. }) => true,
                _ => false,
            };
            !((char32 && str_starts_with(e.as_str(), "U'\\U")) || (integer || str_ends_with(
                e.as_str(),
                "ull",
            )))
        },
        _ => false,
    }
}

/// An expression adapted to the Java type it initializes: floating-point
/// suffixes, a `long` suffix, a `NativeLong` constructor for platform-sized
/// integers, a constructor of the named class for named types.
pub open spec fn wrapped_expr(e: Seq<char>, t: Type) -> Seq<char> {
    match t {
        Type::Primitive(PrimitiveType::Double) => e + "d"@,
        Type::Primitive(PrimitiveType::Float) => e + "f"@,
        Type::Primitive(PrimitiveType::Integer { kind, .. }) => match kind {
            IntKind::LongLong | IntKind::B64 => e + "L"@,
            IntKind::Long | IntKind::Size | IntKind::SizeT => "new NativeLong("@ + e + ")"@,
            _ => e,
        },
        Type::Path(p) => "new "@ + p@ + "("@ + e + ")"@,
        _ => e,
    }
}

/// See [`wrapped_expr`].
pub fn wrap_java_value(expr: &str, ty: &Type) -> (r: String)
    ensures
        r@ == wrapped_expr(expr@, *ty),
{
    match ty {
        Type::Primitive(PrimitiveType::Double) => {
            let mut s = String::from_str(expr);
            s.append("d");
            s
        },
        Type::Primitive(PrimitiveType::Float) => {
            let mut s = String::from_str(expr);
            s.append("f");
            s
        },
        Type::Primitive(PrimitiveType::Integer { kind, .. }) => match kind {
            IntKind::LongLong | IntKind::B64 => {
                let mut s = String::from_str(expr);
                s.append("L");
                s
            },
            IntKind::Long | IntKind::Size | IntKind::SizeT => {
                let mut s = String::from_str("new NativeLong(");
                s.append(expr);
                s.append(")");
                s
            },
            _ => String::from_str(expr),
        },
        Type::Path(p) => {
            let mut s = String::from_str("new ");
            s.append(p.as_str());
            s.append("(");
            s.append(expr);
            s.append(")");
            s
        },
        _ => String::from_str(expr),
    }
}

/// A parameter's name: its own, or `arg<index>` when it has none or is `_`.
pub open spec fn arg_name(name: Option<String>, index: nat) -> Seq<char> {
    match name {
        Some(n) => if n@ == "_"@ { "arg"@ + decimal(index) } else { n@ },
        None => "arg"@ + decimal(index),
    }
}

/// A parameter as written in a parameter list: type, blank, name.
pub open spec fn arg_text(name: Option<String>, ty: Type, index: nat) -> Seq<char> {
    java_name(ty) + " "@ + arg_name(name, index)
}

fn is_wildcard(s: &str) -> (r: bool)
    ensures
        r == (s@ == "_"@),
{
    proof {
        reveal_strlit("_");
    }
    if s.unicode_len() != 1 {
        return false;
    }
    let c = s.get_char(0);
    if c == '_' {
        assert(s@ =~= "_"@);
        true
    } else {
        false
    }
}

/// See [`arg_text`].
pub fn java_arg_text(name: &Option<String>, ty: &Type, index: usize) -> (r: String)
    ensures
        r@ == arg_text(*name, *ty, index as nat),
{
    let mut s = java_type_name(ty);
    s.append(" ");
    let named = match name {
        Some(n) => !is_wildcard(n.as_str()),
        None => false,
    };
    if named {
        match name {
            Some(n) => s.append(n.as_str()),
            None => {},
        }
    } else {
        s.append("arg");
        s.append(nat_to_decimal(index as u128).as_str());
    }
    s
}

} // verus!
