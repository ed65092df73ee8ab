//! The resolved, read-only description of a native library's interface.
use vstd::prelude::*;

use crate::writer::Layout;

verus! {

#[derive(Clone, Copy, Debug, PartialEq, Eq, Structural)]
pub enum IntKind {
    Short,
    Int,
    Long,
    LongLong,
    SizeT,
    Size,
    B8,
    B16,
    B32,
    B64,
}

#[derive(Clone, Copy, Debug, PartialEq, Eq, Structural)]
pub enum PrimitiveType {
    Void,
    Bool,
    Char,
    SChar,
    UChar,
    Char32,
    Float,
    Double,
    VaList,
    PtrDiffT,
    Integer { kind: IntKind, signed: bool, zeroable: bool },
}

#[derive(Debug, PartialEq, Eq)]
pub enum Type {
    Ptr { ty: Box<Type>, is_const: bool, is_nullable: bool, is_ref: bool },
    /// A named struct, union, enum, typedef or opaque item, by export name.
    Path(String),
    Primitive(PrimitiveType),
    /// Element type and length expression.
    Array(Box<Type>, String),
    FuncPtr { ret: Box<Type>, args: Vec<(Option<String>, Type)>, is_nullable: bool, never_return: bool },
}

#[derive(Debug, PartialEq, Eq)]
pub enum Literal {
    Expr(String),
    Path { associated_to: Option<String>, name: String },
    PostfixUnaryOp { op: String, value: Box<Literal> },
    BinOp { left: Box<Literal>, op: String, right: Box<Literal> },
    FieldAccess { base: Box<Literal>, field: String },
    Struct { path: String, export_name: String, fields: Vec<(String, Literal)> },
    Cast { ty: Type, value: Box<Literal> },
}

/// Comment lines; no lines means no comment block.
#[derive(Debug, PartialEq, Eq)]
pub struct Documentation {
    pub doc_comment: Vec<String>,
}

#[derive(Debug, PartialEq, Eq)]
pub struct Field {
    pub name: String,
    pub ty: Type,
    pub documentation: Documentation,
}

#[derive(Debug, PartialEq, Eq)]
pub struct Constant {
    pub export_name: String,
    pub ty: Type,
    pub value: Literal,
    pub documentation: Documentation,
}

#[derive(Debug, PartialEq, Eq)]
pub struct Struct {
    pub export_name: String,
    pub fields: Vec<Field>,
    /// Set when the struct has one field and stands for that field's type.
    pub is_transparent: bool,
    pub associated_constants: Vec<Constant>,
    pub deprecated: Option<String>,
    pub documentation: Documentation,
}

#[derive(Debug, PartialEq, Eq)]
pub struct Union {
    pub export_name: String,
    pub fields: Vec<Field>,
    pub deprecated: Option<String>,
    pub documentation: Documentation,
}

#[derive(Debug, PartialEq, Eq)]
pub struct EnumVariant {
    pub export_name: String,
    pub discriminant: Option<Literal>,
    pub documentation: Documentation,
}

#[derive(Debug, PartialEq, Eq)]
pub struct Enum {
    pub export_name: String,
    pub variants: Vec<EnumVariant>,
    pub deprecated: Option<String>,
    pub documentation: Documentation,
}

#[derive(Debug, PartialEq, Eq)]
pub struct Typedef {
    pub export_name: String,
    pub aliased: Type,
    pub deprecated: Option<String>,
    pub documentation: Documentation,
}

#[derive(Debug, PartialEq, Eq)]
pub struct OpaqueItem {
    pub export_name: String,
    pub deprecated: Option<String>,
    pub documentation: Documentation,
}

#[derive(Debug, PartialEq, Eq)]
pub struct FunctionArgument {
    pub name: Option<String>,
    pub ty: Type,
}

#[derive(Debug, PartialEq, Eq)]
pub struct Function {
    pub name: String,
    pub args: Vec<FunctionArgument>,
    pub ret: Type,
    pub deprecated: Option<String>,
    pub documentation: Documentation,
}

#[derive(Debug, PartialEq, Eq)]
pub struct Static {
    pub export_name: String,
    pub ty: Type,
    pub mutable: bool,
    pub documentation: Documentation,
}

/// The settings the emitter reads.
#[derive(Debug, PartialEq, Eq)]
pub struct Config {
    pub header: Option<String>,
    pub include_version: bool,
    /// Generator name and version, written when `include_version` is set.
    pub version: String,
    pub autogen_warning: Option<String>,
    pub package: Option<String>,
    /// Name of the generated interface; `Bindings` when absent.
    pub interface_name: Option<String>,
    /// Text copied into the generated interface's body.
    pub extra_defs: Option<String>,
    pub line_length: usize,
    pub function_args: Layout,
}

pub open spec fn opt_view(o: Option<String>) -> Option<Seq<char>> {
    match o {
        Some(s) => Some(s@),
        None => None,
    }
}

pub open spec fn doc_lines(d: Documentation) -> Seq<Seq<char>> {
    d.doc_comment@.map_values(|s: String| s@)
}

} // verus!
