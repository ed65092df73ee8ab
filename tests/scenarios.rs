use jna_emit::ir::{
    Config, Documentation, Enum, EnumVariant, Field, IntKind, Literal, OpaqueItem, PrimitiveType,
    Struct, Type,
};
use jna_emit::java_jna::JavaJnaLanguageBackend;
use jna_emit::writer::{Layout, SourceWriter};

fn no_doc() -> Documentation {
    Documentation { doc_comment: vec![] }
}

fn config() -> Config {
    Config {
        header: None,
        include_version: false,
        version: String::new(),
        autogen_warning: None,
        package: None,
        interface_name: None,
        extra_defs: None,
        line_length: 100,
        function_args: Layout::Auto,
    }
}

fn int_ty(kind: IntKind) -> Type {
    Type::Primitive(PrimitiveType::Integer { kind, signed: true, zeroable: true })
}

fn variant(name: &str, discriminant: Option<&str>) -> EnumVariant {
    EnumVariant {
        export_name: name.to_string(),
        discriminant: discriminant.map(|d| Literal::Expr(d.to_string())),
        documentation: no_doc(),
    }
}

#[test]
fn opaque_item_emits_handle_and_reference_classes() {
    let cfg = config();
    let backend = JavaJnaLanguageBackend::new(&cfg, "lib".to_string());
    let mut out = SourceWriter::new(4);
    let item = OpaqueItem {
        export_name: "Handle".to_string(),
        deprecated: None,
        documentation: no_doc(),
    };
    backend.write_opaque_item(&mut out, &item);
    let expected = "class Handle extends PointerType {\n    public Handle() {\n        super(null);\n    }\n    public Handle(Pointer p) {\n        super(p);\n    }\n}\n\nclass HandleByReference extends Handle {\n    public HandleByReference() {\n        super(null);\n    }\n    public HandleByReference(Pointer p) {\n        super(p);\n    }\n}";
    assert_eq!(out.as_str(), expected);
    assert_eq!(out.as_str().matches("class ").count(), 2);
    assert!(!out.as_str().contains("public Handle ") && !out.as_str().contains(";\n    public"));
}

#[test]
fn enum_discriminants_resume_after_explicit_value() {
    let cfg = config();
    let backend = JavaJnaLanguageBackend::new(&cfg, "lib".to_string());
    let mut out = SourceWriter::new(4);
    let e = Enum {
        export_name: "E".to_string(),
        variants: vec![variant("Ok", None), variant("Err", Some("5")), variant("X", None)],
        deprecated: None,
        documentation: no_doc(),
    };
    backend.write_enum(&mut out, &e);
    let expected = "class E extends IntegerType {\n    public E() {\n        super(4);\n    }\n\n    public E(long value) {\n        super(4, value);\n    }\n\n    public E(Pointer p) {\n        this(p.getInt(0));\n    }\n    public static final E Ok = new E(0);\n    public static final E Err = new E(5);\n    public static final E X = new E(6);\n\n}\n\nclass EByReference extends ByReference {\n    public EByReference() {\n        super(4);\n    }\n\n    public EByReference(Pointer p) {\n        super(4);\n        setPointer(p);\n    }\n\n    public E getValue() {\n        return new E(getPointer().getInt(0));\n    }\n\n    public void setValue(E value) {\n        getPointer().setInt(0, value.intValue());\n    }\n\n}";
    assert_eq!(out.as_str(), expected);
}

#[test]
fn enum_without_explicit_discriminants_counts_from_zero() {
    let cfg = config();
    let backend = JavaJnaLanguageBackend::new(&cfg, "lib".to_string());
    let mut out = SourceWriter::new(2);
    let e = Enum {
        export_name: "Color".to_string(),
        variants: vec![variant("Red", None), variant("Green", None), variant("Blue", None)],
        deprecated: None,
        documentation: no_doc(),
    };
    backend.write_enum(&mut out, &e);
    let text = out.into_string();
    assert!(text.contains("  public static final Color Red = new Color(0);\n"));
    assert!(text.contains("  public static final Color Green = new Color(1);\n"));
    assert!(text.contains("  public static final Color Blue = new Color(2);\n"));
}

#[test]
fn enum_unparsable_and_negative_discriminants() {
    let cfg = config();
    let backend = JavaJnaLanguageBackend::new(&cfg, "lib".to_string());
    let mut out = SourceWriter::new(2);
    let e = Enum {
        export_name: "K".to_string(),
        variants: vec![
            variant("A", Some("-3")),
            variant("B", Some("1 << 2")),
            variant("C", Some("2147483647")),
            variant("D", None),
            variant("F", Some("+7")),
        ],
        deprecated: None,
        documentation: no_doc(),
    };
    backend.write_enum(&mut out, &e);
    let text = out.into_string();
    assert!(text.contains("K A = new K(-3);"));
    assert!(text.contains("K B = new K(-2);"));
    assert!(text.contains("K C = new K(2147483647);"));
    assert!(text.contains("K D = new K(2147483648);"));
    assert!(text.contains("K F = new K(7);"));
}

fn transparent(field_ty: Type) -> Struct {
    Struct {
        export_name: "T".to_string(),
        fields: vec![Field { name: "0".to_string(), ty: field_ty, documentation: no_doc() }],
        is_transparent: true,
        associated_constants: vec![],
        deprecated: None,
        documentation: no_doc(),
    }
}

fn emit_struct(s: &Struct) -> String {
    let cfg = config();
    let backend = JavaJnaLanguageBackend::new(&cfg, "lib".to_string());
    let mut out = SourceWriter::new(4);
    backend.write_struct(&mut out, s);
    out.into_string()
}

#[test]
fn transparent_integer_struct_is_integer_wrapper() {
    let text = emit_struct(&transparent(int_ty(IntKind::B64)));
    assert!(text.starts_with("class T extends IntegerType {\n"));
    assert!(text.contains("super(8);"));
    assert!(text.contains("class TByReference extends ByReference {"));
    assert!(text.contains("getPointer().setLong(0, value.longValue());"));
    assert!(!text.contains("Structure"));
}

#[test]
fn transparent_path_struct_subclasses_path() {
    let text = emit_struct(&transparent(Type::Path("Inner".to_string())));
    assert!(text.contains("class T extends Inner implements Structure.ByValue {"));
    assert!(text.contains("class TByReference extends InnerByReference implements Structure.ByReference {"));
    assert!(!text.contains("FieldOrder"));
}

#[test]
fn transparent_array_struct_is_pointer_wrapper() {
    let a = emit_struct(&transparent(Type::Array(Box::new(int_ty(IntKind::Int)), "4".to_string())));
    let b = emit_struct(&transparent(Type::Array(Box::new(Type::Path("Q".to_string())), "9".to_string())));
    assert!(a.starts_with("class T extends PointerType {\n"));
    assert!(a.contains("class TByReference extends T {"));
    assert_eq!(a, b);
}

#[test]
fn transparent_other_struct_is_placeholder() {
    let text = emit_struct(&transparent(Type::Primitive(PrimitiveType::Float)));
    assert_eq!(text, "/* Not implemented yet : struct T */");
}

#[test]
fn emission_is_reproducible() {
    let s = Struct {
        export_name: "P".to_string(),
        fields: vec![
            Field { name: "a".to_string(), ty: int_ty(IntKind::Int), documentation: no_doc() },
            Field { name: "b".to_string(), ty: Type::Primitive(PrimitiveType::Float), documentation: no_doc() },
        ],
        is_transparent: false,
        associated_constants: vec![],
        deprecated: None,
        documentation: no_doc(),
    };
    let first = emit_struct(&s);
    let second = emit_struct(&s);
    assert_eq!(first, second);
    assert!(first.starts_with("\n@Structure.FieldOrder({\"a\", \"b\"})\nclass P extends Structure implements Structure.ByValue {\n    public P() {\n        super();\n    }\n\n    public P(Pointer p) {\n        super(p);\n    }\n\n    public int a;\n    public float b;\n\n}\n"));
    assert!(first.contains("class PByReference extends Structure implements Structure.ByReference {"));
}
