use uniffi_bindgen_go::gen_go::filters;
use uniffi_bindgen_go::gen_go::interface::{
    ComponentInterface, Enum, Literal, ObjectImpl, Radix, Type, Variant,
};
use uniffi_bindgen_go::gen_go::numerals;
use uniffi_bindgen_go::gen_go::primitives;
use uniffi_bindgen_go::gen_go::quoting;
use uniffi_bindgen_go::gen_go::GoCodeOracle;

fn ci(errors: &[&str]) -> ComponentInterface {
    ComponentInterface {
        namespace: "geometry".to_string(),
        types: vec![],
        errors: errors.iter().map(|e| e.to_string()).collect(),
        objects: vec![],
        callback_interfaces: vec![],
    }
}

fn literal(t: &Type, value: &Literal) -> String {
    let handler = GoCodeOracle.find(t);
    assert!(handler.accepts_literal(value));
    handler.literal(value, &ci(&[]))
}

#[test]
fn uint8_seven_and_int32_minus_five() {
    assert_eq!(literal(&Type::UInt8, &Literal::UInt(7, Radix::Decimal, Type::UInt8)), "UInt8(7)");
    assert_eq!(literal(&Type::Int32, &Literal::Int(-5, Radix::Decimal, Type::Int32)), "-5");
}

#[test]
fn numbers_of_every_type() {
    let render = |l: Literal| primitives::render_literal(&l);
    assert_eq!(render(Literal::Int(-8, Radix::Decimal, Type::Int8)), "Int8(-8)");
    assert_eq!(render(Literal::UInt(8, Radix::Decimal, Type::UInt8)), "UInt8(8)");
    assert_eq!(render(Literal::Int(16, Radix::Decimal, Type::Int16)), "Int16(16)");
    assert_eq!(render(Literal::UInt(16, Radix::Decimal, Type::UInt16)), "UInt16(16)");
    assert_eq!(render(Literal::Int(32, Radix::Decimal, Type::Int32)), "32");
    assert_eq!(render(Literal::UInt(32, Radix::Decimal, Type::UInt32)), "UInt32(32)");
    assert_eq!(render(Literal::Int(-64, Radix::Decimal, Type::Int64)), "Int64(-64)");
    assert_eq!(render(Literal::UInt(64, Radix::Decimal, Type::UInt64)), "UInt64(64)");
    assert_eq!(render(Literal::UInt(0, Radix::Decimal, Type::UInt64)), "UInt64(0)");
    assert_eq!(render(Literal::UInt(7, Radix::Decimal, Type::Int32)), "7");
    assert_eq!(render(Literal::Float("1.5".to_string(), Type::Float32)), "Float32(1.5)");
    assert_eq!(render(Literal::Float("-0.25e3".to_string(), Type::Float64)), "Float64(-0.25e3)");
}

#[test]
fn extreme_numbers() {
    let render = |l: Literal| primitives::render_literal(&l);
    assert_eq!(render(Literal::UInt(u64::MAX, Radix::Decimal, Type::UInt64)),
        "UInt64(18446744073709551615)");
    assert_eq!(render(Literal::Int(i64::MIN, Radix::Decimal, Type::Int64)),
        "Int64(-9223372036854775808)");
    assert_eq!(render(Literal::Int(i64::MAX, Radix::Decimal, Type::Int64)),
        "Int64(9223372036854775807)");
    assert_eq!(render(Literal::UInt(u64::MAX, Radix::Hexadecimal, Type::UInt64)),
        "UInt64(0xffffffffffffffff)");
    assert_eq!(render(Literal::UInt(u64::MAX, Radix::Octal, Type::UInt64)),
        "UInt64(0o1777777777777777777777)");
}

#[test]
fn radix_is_kept() {
    let render = |l: Literal| primitives::render_literal(&l);
    assert_eq!(render(Literal::UInt(255, Radix::Hexadecimal, Type::UInt8)), "UInt8(0xff)");
    assert_eq!(render(Literal::UInt(8, Radix::Octal, Type::UInt8)), "UInt8(0o10)");
    assert_eq!(render(Literal::UInt(0, Radix::Hexadecimal, Type::UInt16)), "UInt16(0x0)");
    assert_eq!(render(Literal::UInt(0, Radix::Octal, Type::Int32)), "0o0");
    assert_eq!(render(Literal::Int(255, Radix::Hexadecimal, Type::Int32)), "0xff");
    assert_eq!(render(Literal::Int(2748, Radix::Hexadecimal, Type::Int64)), "Int64(0xabc)");
}

#[test]
fn negative_numbers_keep_their_sign_in_every_radix() {
    let render = |l: Literal| primitives::render_literal(&l);
    assert_eq!(render(Literal::Int(-1, Radix::Hexadecimal, Type::Int32)), "-0x1");
    assert_eq!(render(Literal::Int(-1, Radix::Hexadecimal, Type::Int64)), "Int64(-0x1)");
    assert_eq!(render(Literal::Int(-255, Radix::Hexadecimal, Type::Int16)), "Int16(-0xff)");
    assert_eq!(render(Literal::Int(-8, Radix::Octal, Type::Int64)), "Int64(-0o10)");
    assert_eq!(render(Literal::Int(-8, Radix::Octal, Type::Int32)), "-0o10");
    assert_eq!(render(Literal::Int(-8, Radix::Decimal, Type::Int32)), "-8");
    assert_eq!(render(Literal::Int(i64::MIN, Radix::Hexadecimal, Type::Int64)),
        "Int64(-0x8000000000000000)");
    assert_eq!(render(Literal::Int(i64::MIN, Radix::Octal, Type::Int64)),
        "Int64(-0o1000000000000000000000)");
    assert_eq!(render(Literal::Int(0, Radix::Hexadecimal, Type::Int32)), "0x0");
}

#[test]
fn digits_agree_with_the_standard_library() {
    for n in [0u64, 1, 7, 8, 9, 10, 15, 16, 17, 99, 100, 255, 256, 4095, 65535, 1 << 40, u64::MAX] {
        assert_eq!(numerals::render_digits(n, 10), format!("{}", n));
        assert_eq!(numerals::render_digits(n, 8), format!("{:o}", n));
        assert_eq!(numerals::render_digits(n, 16), format!("{:x}", n));
        assert_eq!(numerals::render_digits(n, 2), format!("{:b}", n));
    }
    for v in [0i64, 1, -1, 5, -5, 10, -10, 127, -128, i64::MAX, i64::MIN, i64::MIN + 1] {
        assert_eq!(numerals::render_signed_decimal(v), format!("{}", v));
        assert_eq!(numerals::absolute(v), v.unsigned_abs());
        let digits = format!("{}", v.unsigned_abs());
        assert_eq!(numerals::signed(v, digits), format!("{}", v));
    }
}

#[test]
fn integer_literals_read_back() {
    for v in [0u64, 7, 8, 64, 255, 1000, u64::MAX] {
        let decimal = primitives::render_literal(&Literal::UInt(v, Radix::Decimal, Type::Int32));
        assert_eq!(decimal.parse::<u64>().unwrap(), v);
        let hex = primitives::render_literal(&Literal::UInt(v, Radix::Hexadecimal, Type::Int32));
        assert_eq!(u64::from_str_radix(hex.strip_prefix("0x").unwrap(), 16).unwrap(), v);
        let octal = primitives::render_literal(&Literal::UInt(v, Radix::Octal, Type::Int32));
        assert_eq!(u64::from_str_radix(octal.strip_prefix("0o").unwrap(), 8).unwrap(), v);
        let typed = primitives::render_literal(&Literal::UInt(v, Radix::Decimal, Type::UInt64));
        let inside = typed.strip_prefix("UInt64(").unwrap().strip_suffix(")").unwrap();
        assert_eq!(inside.parse::<u64>().unwrap(), v);
    }
    for v in [0i64, -1, 5, -5, i64::MIN, i64::MAX] {
        let decimal = primitives::render_literal(&Literal::Int(v, Radix::Decimal, Type::Int32));
        assert_eq!(decimal.parse::<i64>().unwrap(), v);
        for (radix, prefix, base) in [(Radix::Hexadecimal, "0x", 16), (Radix::Octal, "0o", 8)] {
            let text = primitives::render_literal(&Literal::Int(v, radix, Type::Int32));
            let (negative, rest) = match text.strip_prefix("-") {
                Some(rest) => (true, rest),
                None => (false, text.as_str()),
            };
            let magnitude = u64::from_str_radix(rest.strip_prefix(prefix).unwrap(), base).unwrap();
            assert_eq!(negative, v < 0);
            assert_eq!(magnitude, v.unsigned_abs());
        }
    }
}

#[test]
fn strings_are_escaped() {
    let render = |s: &str| primitives::render_literal(&Literal::String(s.to_string()));
    assert_eq!(render("plain"), "\"plain\"");
    assert_eq!(render("say \"hi\""), "\"say \\\"hi\\\"\"");
    assert_eq!(render("a\\b"), "\"a\\\\b\"");
    assert_eq!(render("one\ntwo"), "\"one\\ntwo\"");
    assert_eq!(render("\r\t"), "\"\\r\\t\"");
    assert_eq!(render("\""), "\"\\\"\"");
    assert_eq!(render("\\"), "\"\\\\\"");
    assert_eq!(render("héllo ✓"), "\"héllo ✓\"");
    assert_eq!(quoting::escape(""), "");
    assert_eq!(quoting::escape("\\n"), "\\\\n");
    assert_eq!(quoting::quote("x"), "\"x\"");
}

#[test]
fn escaped_strings_read_back() {
    fn read(text: &str) -> String {
        let mut out = String::new();
        let mut chars = text.chars();
        assert_eq!(chars.next(), Some('"'));
        loop {
            match chars.next().unwrap() {
                '"' => break,
                '\\' => out.push(match chars.next().unwrap() {
                    'n' => '\n',
                    'r' => '\r',
                    't' => '\t',
                    c => c,
                }),
                c => out.push(c),
            }
        }
        assert_eq!(chars.next(), None);
        out
    }
    for s in ["", "plain", "\"", "\\", "\\\"", "a\nb\r\n", "\t\\t", "\\n", "é\"ü\\✓", "\"\"\""] {
        let text = primitives::render_literal(&Literal::String(s.to_string()));
        assert!(!text.contains('\n'));
        assert_eq!(read(&text), s, "{:?}", text);
    }
}

#[test]
fn magnitudes_in_every_radix() {
    assert_eq!(primitives::render_magnitude(0, &Radix::Decimal), "0");
    assert_eq!(primitives::render_magnitude(255, &Radix::Decimal), "255");
    assert_eq!(primitives::render_magnitude(255, &Radix::Hexadecimal), "0xff");
    assert_eq!(primitives::render_magnitude(255, &Radix::Octal), "0o377");
    assert_eq!(primitives::render_magnitude(1 << 63, &Radix::Hexadecimal), "0x8000000000000000");
}

#[test]
fn booleans_and_strings() {
    let render = |l: Literal| primitives::render_literal(&l);
    assert_eq!(render(Literal::Boolean(true)), "true");
    assert_eq!(render(Literal::Boolean(false)), "false");
    assert_eq!(render(Literal::String("hello".to_string())), "\"hello\"");
    assert_eq!(render(Literal::String(String::new())), "\"\"");
    assert_eq!(literal(&Type::Boolean, &Literal::Boolean(true)), "true");
    assert_eq!(literal(&Type::String, &Literal::String("go".to_string())), "\"go\"");
}

#[test]
fn which_constants_a_primitive_renders() {
    assert!(primitives::renders(&Literal::Boolean(false)));
    assert!(primitives::renders(&Literal::String("x".to_string())));
    assert!(primitives::renders(&Literal::UInt(1, Radix::Decimal, Type::UInt8)));
    assert!(primitives::renders(&Literal::Int(1, Radix::Octal, Type::Int32)));
    assert!(primitives::renders(&Literal::Float("1.0".to_string(), Type::Float64)));
    assert!(!primitives::renders(&Literal::UInt(1, Radix::Decimal, Type::String)));
    assert!(!primitives::renders(&Literal::Int(1, Radix::Decimal, Type::Boolean)));
    assert!(!primitives::renders(&Literal::Float("1.0".to_string(), Type::Bytes)));
    assert!(!primitives::renders(&Literal::Enum("A".to_string(), Type::UInt8)));
    assert!(!primitives::renders(&Literal::EmptySequence));
    assert!(!primitives::renders(&Literal::EmptyMap));
    assert!(!primitives::renders(&Literal::Null));
    assert!(!primitives::renders(&Literal::NonNull { inner: Box::new(Literal::Boolean(true)) }));
    assert!(primitives::number_type(&Type::Float32));
    assert!(!primitives::number_type(&Type::Timestamp));
}

#[test]
fn enum_literal_is_qualified_by_the_label() {
    let shape = Type::Enum { module: "geometry".to_string(), name: "shape".to_string() };
    let value = Literal::Enum("round_one".to_string(), shape.clone());
    let handler = GoCodeOracle.find(&shape);
    assert!(handler.accepts_literal(&value));
    assert_eq!(handler.literal(&value, &ci(&[])), "Shape.RoundOne");
    assert_eq!(handler.literal(&value, &ci(&["shape"])), "*Shape.RoundOne");
    assert!(!handler.accepts_literal(&Literal::Boolean(true)));
    assert!(!handler.accepts_literal(&Literal::Null));
}

#[test]
fn optional_literal_is_nil_or_the_inner_literal() {
    let t = Type::Optional { inner_type: Box::new(Type::UInt8) };
    assert_eq!(literal(&t, &Literal::Null), "nil");
    assert_eq!(literal(&t, &Literal::UInt(7, Radix::Decimal, Type::UInt8)), "UInt8(7)");
    let nested = Type::Optional { inner_type: Box::new(t) };
    assert_eq!(literal(&nested, &Literal::Null), "nil");
    assert_eq!(literal(&nested, &Literal::Boolean(true)), "true");
    let of_record = Type::Optional {
        inner_type: Box::new(Type::Record { module: "m".to_string(), name: "Point".to_string() }),
    };
    assert_eq!(literal(&of_record, &Literal::Null), "nil");
    assert!(!GoCodeOracle.find(&of_record).accepts_literal(&Literal::Boolean(true)));
    assert!(!GoCodeOracle.find(&nested).accepts_literal(&Literal::EmptySequence));
}

#[test]
fn other_types_have_no_literal() {
    let values = [
        Literal::Null,
        Literal::Boolean(true),
        Literal::String("s".to_string()),
        Literal::UInt(1, Radix::Decimal, Type::UInt8),
        Literal::EmptySequence,
        Literal::EmptyMap,
        Literal::Enum("A".to_string(), Type::UInt8),
    ];
    let types = [
        Type::Record { module: "m".to_string(), name: "Point".to_string() },
        Type::Object { module: "m".to_string(), name: "Sprite".to_string(), imp: ObjectImpl::Struct },
        Type::CallbackInterface { module: "m".to_string(), name: "Logger".to_string() },
        Type::Sequence { inner_type: Box::new(Type::UInt8) },
        Type::Mapping { key_type: Box::new(Type::String), value_type: Box::new(Type::UInt8) },
        Type::Timestamp,
        Type::Duration,
        Type::ForeignExecutor,
        Type::Custom {
            module: "m".to_string(),
            name: "Url".to_string(),
            builtin: Box::new(Type::String),
        },
    ];
    for t in &types {
        for v in &values {
            assert!(!GoCodeOracle.find(t).accepts_literal(v), "{:?} {:?}", t, v);
        }
    }
}

#[test]
fn discriminants_are_written_in_decimal() {
    let variant = |name: &str, discr: Literal| Variant { name: name.to_string(), discr };
    let e = Enum {
        name: "Shape".to_string(),
        module: "geometry".to_string(),
        variants: vec![
            variant("A", Literal::UInt(0, Radix::Decimal, Type::UInt64)),
            variant("B", Literal::UInt(255, Radix::Hexadecimal, Type::UInt64)),
            variant("C", Literal::Int(-3, Radix::Decimal, Type::Int64)),
        ],
    };
    assert_eq!(filters::variant_discr_literal(&e, &0).unwrap(), "0");
    assert_eq!(filters::variant_discr_literal(&e, &1).unwrap(), "255");
    assert_eq!(filters::variant_discr_literal(&e, &2).unwrap(), "-3");
}
