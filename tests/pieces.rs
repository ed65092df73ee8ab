use jna_emit::ir::{
    Config, Constant, Documentation, Field, Function, FunctionArgument, IntKind, Literal,
    PrimitiveType, Static, Struct, Type, Typedef, Union,
};
use jna_emit::java_jna::{JavaJnaLanguageBackend, NamespaceOperation};
use jna_emit::types::java_type_name;
use jna_emit::writer::{Layout, Op, SourceWriter};

fn no_doc() -> Documentation {
    Documentation { doc_comment: vec![] }
}

fn config_with(line_length: usize, function_args: Layout) -> Config {
    Config {
        header: None,
        include_version: false,
        version: String::new(),
        autogen_warning: None,
        package: None,
        interface_name: None,
        extra_defs: None,
        line_length,
        function_args,
    }
}

fn prim(p: PrimitiveType) -> Type {
    Type::Primitive(p)
}

fn integer(kind: IntKind) -> Type {
    Type::Primitive(PrimitiveType::Integer { kind, signed: true, zeroable: true })
}

fn ptr(t: Type) -> Type {
    Type::Ptr { ty: Box::new(t), is_const: false, is_nullable: true, is_ref: false }
}

fn sample_function() -> Function {
    Function {
        name: "f".to_string(),
        args: vec![
            FunctionArgument { name: Some("a".to_string()), ty: integer(IntKind::Int) },
            FunctionArgument { name: Some("_".to_string()), ty: ptr(Type::Path("S".to_string())) },
            FunctionArgument { name: None, ty: prim(PrimitiveType::Double) },
        ],
        ret: integer(IntKind::Int),
        deprecated: None,
        documentation: no_doc(),
    }
}

fn emit_function(cfg: &Config) -> String {
    let backend = JavaJnaLanguageBackend::new(cfg, "lib".to_string());
    let mut out = SourceWriter::new(4);
    backend.write_function(&mut out, &sample_function());
    out.into_string()
}

#[test]
fn function_horizontal_layout() {
    let text = emit_function(&config_with(10, Layout::Horizontal));
    assert_eq!(text, "int f(int a, SByReference arg1, double arg2);");
}

#[test]
fn function_vertical_layout() {
    let text = emit_function(&config_with(100, Layout::Vertical));
    assert_eq!(text, "int f(int a, \n      SByReference arg1, \n      double arg2);");
}

#[test]
fn function_auto_layout_follows_fit() {
    let fits = emit_function(&config_with(43, Layout::Auto));
    assert_eq!(fits, emit_function(&config_with(43, Layout::Horizontal)));
    let too_long = emit_function(&config_with(42, Layout::Auto));
    assert_eq!(too_long, emit_function(&config_with(42, Layout::Vertical)));
    assert_ne!(fits, too_long);
}

#[test]
fn writer_list_layouts() {
    let items = vec!["\"alpha\"".to_string(), "\"beta\"".to_string()];
    let mut h = SourceWriter::new(2);
    h.write("x(");
    h.write_list(&items, ", ", ",", Layout::Auto, 17);
    assert_eq!(h.as_str(), "x(\"alpha\", \"beta\"");
    let mut v = SourceWriter::new(2);
    v.write("x(");
    v.write_list(&items, ", ", ",", Layout::Auto, 16);
    assert_eq!(v.as_str(), "x(\"alpha\",\n  \"beta\"");
    let mut e = SourceWriter::new(2);
    e.write_list(&vec![], ", ", ",", Layout::Vertical, 0);
    assert_eq!(e.as_str(), "");
}

#[test]
fn writer_braces_and_lines() {
    let mut w = SourceWriter::new(3);
    w.new_line_if_not_start();
    w.write("a");
    w.open_brace();
    w.write("b");
    w.open_brace();
    w.write("");
    w.write("c");
    w.close_brace();
    w.close_brace();
    w.new_line_if_not_start();
    w.write("d");
    assert_eq!(w.into_string(), "a {\n   b {\n      c\n   }\n}\nd");
}

#[test]
fn emit_runs_operations_in_order() {
    let mut w = SourceWriter::new(4);
    let ops = vec![
        Op::Text("class A".to_string()),
        Op::OpenBrace,
        Op::Text("x".to_string()),
        Op::CloseBrace,
        Op::NewLine,
        Op::NewLineIfNotStart,
    ];
    w.emit(&ops);
    assert_eq!(w.as_str(), "class A {\n    x\n}\n\n");
}

#[test]
fn struct_field_order_goes_vertical_when_too_long() {
    let cfg = config_with(30, Layout::Auto);
    let backend = JavaJnaLanguageBackend::new(&cfg, "lib".to_string());
    let mut out = SourceWriter::new(4);
    let s = Struct {
        export_name: "P".to_string(),
        fields: vec![
            Field { name: "first".to_string(), ty: integer(IntKind::Int), documentation: no_doc() },
            Field { name: "second".to_string(), ty: ptr(prim(PrimitiveType::Float)), documentation: no_doc() },
        ],
        is_transparent: false,
        associated_constants: vec![],
        deprecated: None,
        documentation: no_doc(),
    };
    backend.write_struct(&mut out, &s);
    let text = out.into_string();
    assert!(text.starts_with("\n@Structure.FieldOrder({\"first\",\n                       \"second\"})\n"));
    assert!(text.contains("    public FloatByReference second;\n"));
}

#[test]
fn struct_constants_written_or_marked() {
    let cfg = config_with(100, Layout::Auto);
    let backend = JavaJnaLanguageBackend::new(&cfg, "lib".to_string());
    let mut out = SourceWriter::new(4);
    let s = Struct {
        export_name: "P".to_string(),
        fields: vec![],
        is_transparent: false,
        associated_constants: vec![
            Constant {
                export_name: "SCALE".to_string(),
                ty: prim(PrimitiveType::Double),
                value: Literal::Expr("1.5".to_string()),
                documentation: Documentation { doc_comment: vec![" the scale".to_string()] },
            },
            Constant {
                export_name: "COUNT".to_string(),
                ty: integer(IntKind::Int),
                value: Literal::Expr("3".to_string()),
                documentation: no_doc(),
            },
        ],
        deprecated: None,
        documentation: no_doc(),
    };
    backend.write_struct(&mut out, &s);
    let text = out.into_string();
    assert!(text.starts_with("\nclass P extends Structure implements Structure.ByValue {\n"));
    assert!(text.contains("\n    /**\n     * the scale\n     */\n    public static final double SCALE = 1.5d;\n"));
    assert!(text.contains("    /* Not implemented yet : constant COUNT */\n"));
}

#[test]
fn union_emits_two_union_classes() {
    let cfg = config_with(100, Layout::Auto);
    let backend = JavaJnaLanguageBackend::new(&cfg, "lib".to_string());
    let mut out = SourceWriter::new(4);
    let u = Union {
        export_name: "U".to_string(),
        fields: vec![Field { name: "v".to_string(), ty: integer(IntKind::LongLong), documentation: no_doc() }],
        deprecated: Some(String::new()),
        documentation: no_doc(),
    };
    backend.write_union(&mut out, &u);
    let text = out.into_string();
    assert!(text.starts_with("\n@Deprecated\n@Structure.FieldOrder({\"v\"})\nclass U extends Union implements Structure.ByValue {\n"));
    assert!(text.contains("class UByReference extends Union implements Structure.ByReference {"));
    assert!(text.contains("    public long v;\n"));
}

fn emit_typedef(aliased: Type) -> String {
    let cfg = config_with(100, Layout::Horizontal);
    let backend = JavaJnaLanguageBackend::new(&cfg, "lib".to_string());
    let mut out = SourceWriter::new(4);
    let t = Typedef {
        export_name: "Alias".to_string(),
        aliased,
        deprecated: None,
        documentation: no_doc(),
    };
    backend.write_type_def(&mut out, &t);
    out.into_string()
}

#[test]
fn typedef_function_pointer_is_callback() {
    let text = emit_typedef(Type::FuncPtr {
        ret: Box::new(prim(PrimitiveType::Void)),
        args: vec![(None, integer(IntKind::SizeT)), (Some("ctx".to_string()), ptr(prim(PrimitiveType::Void)))],
        is_nullable: false,
        never_return: false,
    });
    assert_eq!(text, "interface Alias extends Callback {\n    void invoke(NativeLong arg0, Pointer ctx);\n}");
}

#[test]
fn typedef_path_subclasses_target() {
    let text = emit_typedef(Type::Path("Base".to_string()));
    assert_eq!(text, "class Alias extends Base {\n    public Alias() {\n        super();\n    }\n    public Alias(Pointer p) {\n        super(p);\n    }\n}\n\nclass AliasByReference extends BaseByReference {\n    public AliasByReference() {\n        super();\n    }\n    public AliasByReference(Pointer p) {\n        super(p);\n    }\n}");
}

#[test]
fn typedef_integer_pointer_array_and_other() {
    let i = emit_typedef(integer(IntKind::Long));
    assert!(i.starts_with("class Alias extends IntegerType {\n    public Alias() {\n        super(Native.LONG_SIZE);\n"));
    assert!(i.contains("this(p.getNativeLong(0).longValue());"));
    assert!(emit_typedef(ptr(prim(PrimitiveType::Char))).starts_with("class Alias extends PointerType {"));
    assert!(emit_typedef(Type::Array(Box::new(prim(PrimitiveType::Bool)), "2".to_string()))
        .contains("class AliasByReference extends Alias {"));
    assert_eq!(emit_typedef(prim(PrimitiveType::Double)), "/* Not implemented yet : typedef Alias */");
}

#[test]
fn headers_and_namespace_scaffold() {
    let mut cfg = config_with(100, Layout::Auto);
    cfg.header = Some("/* h */".to_string());
    cfg.include_version = true;
    cfg.version = "gen 1.0".to_string();
    cfg.package = Some("com.x".to_string());
    let backend = JavaJnaLanguageBackend::new(&cfg, "mylib".to_string());
    let mut out = SourceWriter::new(4);
    backend.write_headers(&mut out);
    assert_eq!(out.as_str(), "/* h */\n\n/* Generated with gen 1.0 */\n\npackage com.x;\n\nimport com.sun.jna.*;\nimport com.sun.jna.ptr.*;\n");
    let mut ns = SourceWriter::new(4);
    backend.open_close_namespaces(NamespaceOperation::Open, &mut ns);
    backend.write_footers(&mut ns);
    backend.open_close_namespaces(NamespaceOperation::Close, &mut ns);
    assert_eq!(ns.as_str(), "enum BindingsSingleton {\n    INSTANCE;\n    final Bindings lib = Native.load(\"mylib\", Bindings.class);\n}\n\ninterface Bindings extends Library {\n    Bindings INSTANCE = BindingsSingleton.INSTANCE.lib;\n\n}");
}

#[test]
fn namespace_with_interface_name_and_extra_defs() {
    let mut cfg = config_with(100, Layout::Auto);
    cfg.interface_name = Some("Api".to_string());
    cfg.extra_defs = Some("int X = 1;".to_string());
    cfg.autogen_warning = Some("// warn".to_string());
    let backend = JavaJnaLanguageBackend::new(&cfg, "z".to_string());
    let mut out = SourceWriter::new(2);
    backend.write_headers(&mut out);
    backend.open_close_namespaces(NamespaceOperation::Open, &mut out);
    let text = out.into_string();
    assert!(text.starts_with("// warn\nimport com.sun.jna.*;\n"));
    assert!(text.ends_with("\nenum ApiSingleton {\n  INSTANCE;\n  final Api lib = Native.load(\"z\", Api.class);\n}\n\ninterface Api extends Library {\n  Api INSTANCE = ApiSingleton.INSTANCE.lib;\n  int X = 1;\n"));
}

#[test]
fn documentation_and_deprecation_blocks() {
    let cfg = config_with(100, Layout::Auto);
    let backend = JavaJnaLanguageBackend::new(&cfg, "lib".to_string());
    let mut out = SourceWriter::new(4);
    backend.write_documentation(&mut out, &Documentation { doc_comment: vec![" one".to_string(), "".to_string()] });
    backend.write_deprecated(&mut out, &Some("use g".to_string()));
    backend.write_deprecated(&mut out, &None);
    assert_eq!(out.as_str(), "/**\n * one\n *\n */\n/**\n * @deprecated use g\n */\n@Deprecated\n");
    let mut empty = SourceWriter::new(4);
    backend.write_documentation(&mut empty, &no_doc());
    assert_eq!(empty.as_str(), "");
}

#[test]
fn literals_statics_and_types() {
    let cfg = config_with(100, Layout::Auto);
    let backend = JavaJnaLanguageBackend::new(&cfg, "lib".to_string());
    let mut out = SourceWriter::new(4);
    backend.write_literal(&mut out, &Literal::Expr("42".to_string()));
    out.write(" ");
    backend.write_literal(&mut out, &Literal::Struct {
        path: "P".to_string(),
        export_name: "P".to_string(),
        fields: vec![],
    });
    out.write(" ");
    backend.write_literal(&mut out, &Literal::Path { associated_to: None, name: "N".to_string() });
    out.write(" ");
    backend.write_static(&mut out, &Static {
        export_name: "G".to_string(),
        ty: integer(IntKind::Int),
        mutable: true,
        documentation: no_doc(),
    });
    out.write(" ");
    backend.write_type(&mut out, &Type::Array(Box::new(ptr(Type::Path("S".to_string()))), "3".to_string()));
    assert_eq!(out.as_str(), "42 /* Not implemented yet : \"Struct Literal P\" */ /* Not implemented yet : Path literal */ /* Not implemented yet : static G */ SByReference[]");
}

#[test]
fn java_type_names() {
    assert_eq!(java_type_name(&integer(IntKind::Size)), "NativeLong");
    assert_eq!(java_type_name(&integer(IntKind::B8)), "byte");
    assert_eq!(java_type_name(&prim(PrimitiveType::Char32)), "char");
    assert_eq!(java_type_name(&prim(PrimitiveType::VaList)), "Pointer");
    assert_eq!(java_type_name(&ptr(ptr(prim(PrimitiveType::Void)))), "PointerByReference");
    assert_eq!(java_type_name(&ptr(integer(IntKind::LongLong))), "LongByReference");
    assert_eq!(java_type_name(&ptr(prim(PrimitiveType::Double))), "DoubleByReference");
    assert_eq!(java_type_name(&ptr(Type::Array(Box::new(prim(PrimitiveType::Bool)), "1".to_string()))), "Pointer");
    assert_eq!(java_type_name(&Type::FuncPtr { ret: Box::new(prim(PrimitiveType::Void)), args: vec![], is_nullable: false, never_return: false }), "Callback");
    assert_eq!(java_type_name(&ptr(Type::FuncPtr { ret: Box::new(prim(PrimitiveType::Void)), args: vec![], is_nullable: false, never_return: false })), "CallbackReference");
    assert_eq!(java_type_name(&Type::Array(Box::new(Type::Array(Box::new(integer(IntKind::B16)), "2".to_string())), "3".to_string())), "short[][]");
}
