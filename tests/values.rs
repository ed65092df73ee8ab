use jna_emit::integer::JnaIntegerType;
use jna_emit::ir::{IntKind, Literal, PrimitiveType, Type};
use jna_emit::numbers::{int_to_decimal, nat_to_decimal, parse_int};
use jna_emit::types::{java_arg_text, java_writable_literal, wrap_java_value};

fn integer(kind: IntKind) -> Type {
    Type::Primitive(PrimitiveType::Integer { kind, signed: false, zeroable: true })
}

#[test]
fn integer_kind_table() {
    assert_eq!(JnaIntegerType::from_kind(&IntKind::B8), JnaIntegerType::Byte);
    assert_eq!(JnaIntegerType::from_kind(&IntKind::Short), JnaIntegerType::Short);
    assert_eq!(JnaIntegerType::from_kind(&IntKind::B32), JnaIntegerType::Int);
    assert_eq!(JnaIntegerType::from_kind(&IntKind::Long), JnaIntegerType::NativeLong);
    assert_eq!(JnaIntegerType::from_kind(&IntKind::B64), JnaIntegerType::Long);
    assert_eq!(JnaIntegerType::from_kind(&IntKind::Size), JnaIntegerType::SizeT);
    assert_eq!(JnaIntegerType::Byte.size(), "1");
    assert_eq!(JnaIntegerType::Long.size(), "8");
    assert_eq!(JnaIntegerType::SizeT.size(), "Native.SIZE_T_SIZE");
    assert_eq!(JnaIntegerType::NativeLong.size(), "Native.LONG_SIZE");
}

#[test]
fn reference_accessors_match_for_every_kind() {
    let kinds = [
        JnaIntegerType::Byte,
        JnaIntegerType::Short,
        JnaIntegerType::Int,
        JnaIntegerType::NativeLong,
        JnaIntegerType::Long,
        JnaIntegerType::SizeT,
    ];
    for k in kinds {
        let set = k.set_method();
        let get = k.get_method();
        let set_accessor = &set[3..set.find('(').unwrap()];
        let get_accessor = &get[3..get.find('(').unwrap()];
        assert_eq!(set_accessor, get_accessor);
    }
    assert_eq!(JnaIntegerType::Byte.set_method(), "setByte(0, (byte)value.intValue())");
    assert_eq!(JnaIntegerType::SizeT.get_method(), "getNativeLong(0).longValue()");
}

#[test]
fn decimal_text() {
    assert_eq!(nat_to_decimal(0), "0");
    assert_eq!(nat_to_decimal(1907), "1907");
    assert_eq!(int_to_decimal(-45), "-45");
    assert_eq!(int_to_decimal(i128::MIN), "-170141183460469231731687303715884105728");
}

#[test]
fn reading_i32() {
    assert_eq!(parse_int("5"), Some(5));
    assert_eq!(parse_int("-2147483648"), Some(i32::MIN));
    assert_eq!(parse_int("+2147483647"), Some(i32::MAX));
    assert_eq!(parse_int("2147483648"), None);
    assert_eq!(parse_int("99999999999999999999"), None);
    assert_eq!(parse_int(""), None);
    assert_eq!(parse_int("-"), None);
    assert_eq!(parse_int("0x10"), None);
    assert_eq!(parse_int(" 1"), None);
}

#[test]
fn wrapping_constant_values() {
    assert_eq!(wrap_java_value("1.0", &Type::Primitive(PrimitiveType::Double)), "1.0d");
    assert_eq!(wrap_java_value("2", &Type::Primitive(PrimitiveType::Float)), "2f");
    assert_eq!(wrap_java_value("7", &integer(IntKind::LongLong)), "7L");
    assert_eq!(wrap_java_value("7", &integer(IntKind::SizeT)), "new NativeLong(7)");
    assert_eq!(wrap_java_value("7", &integer(IntKind::Int)), "7");
    assert_eq!(wrap_java_value("3", &Type::Path("Id".to_string())), "new Id(3)");
    assert_eq!(wrap_java_value("true", &Type::Primitive(PrimitiveType::Bool)), "true");
}

#[test]
fn writable_constant_values() {
    let e = |s: &str| Literal::Expr(s.to_string());
    assert!(java_writable_literal(&Type::Primitive(PrimitiveType::Double), &e("1.0")));
    assert!(!java_writable_literal(&integer(IntKind::Int), &e("1")));
    assert!(!java_writable_literal(&Type::Primitive(PrimitiveType::Double), &e("1ull")));
    assert!(!java_writable_literal(&Type::Primitive(PrimitiveType::Char32), &e("U'\\U0001F600'")));
    assert!(java_writable_literal(&Type::Primitive(PrimitiveType::Char32), &e("'a'")));
    assert!(!java_writable_literal(&Type::Path("P".to_string()), &Literal::Path { associated_to: None, name: "X".to_string() }));
}

#[test]
fn argument_names() {
    let t = integer(IntKind::Int);
    assert_eq!(java_arg_text(&Some("count".to_string()), &t, 0), "int count");
    assert_eq!(java_arg_text(&Some("_".to_string()), &t, 12), "int arg12");
    assert_eq!(java_arg_text(&None, &t, 3), "int arg3");
    assert_eq!(java_arg_text(&Some("__".to_string()), &t, 3), "int __");
}
