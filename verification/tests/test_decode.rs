use dbt_serde_yaml::{
    Decoded, EnumShape, Error, ErrorKind, ExternalError, Field, FieldTransformer, IntKind, Mapping,
    Marker, NoTransform, Number, Payload, Shape, Span, TransformedResult, UnusedKey, Value,
    ValueDeserializer, ValueRefDeserializer, VariantShape, Verbatim,
};

fn text(s: &str) -> Value {
    Value::string(s.to_string())
}

fn integer(n: i64) -> Value {
    Value::number(Number::from_i64(n))
}

fn mapping(pairs: Vec<(Value, Value)>) -> Value {
    let mut m = Mapping::new();
    for (k, v) in pairs {
        m.insert(k, v);
    }
    Value::mapping(m)
}

fn record(pairs: Vec<(&str, Value)>) -> Value {
    mapping(pairs.into_iter().map(|(k, v)| (text(k), v)).collect())
}

fn tagged(tag: &str, value: Value) -> Value {
    Value::tagged(tag.to_string(), value)
}

fn decode(value: &Value, shape: &Shape) -> Result<Decoded, Error> {
    let mut unused = Vec::new();
    value.to_typed(shape, &mut unused, &NoTransform)
}

fn message(value: &Value, shape: &Shape) -> String {
    decode(value, shape).unwrap_err().to_string()
}

fn paths(unused: &Vec<UnusedKey>) -> Vec<&str> {
    unused.iter().map(|report| report.path.as_str()).collect()
}

/// Turns every text and every number into the text "changed".
struct RewriteScalars;

impl FieldTransformer for RewriteScalars {
    fn transform(&self, v: &Value) -> TransformedResult {
        match v {
            Value::String(_, span) | Value::Number(_, span) => {
                Ok(Some(Value::String("changed".to_string(), *span)))
            }
            _ => Ok(None),
        }
    }
}

/// Fails on every node.
struct AlwaysFails;

impl FieldTransformer for AlwaysFails {
    fn transform(&self, _: &Value) -> TransformedResult {
        Err(ExternalError { message: "no".to_string() })
    }
}

fn point_shape() -> Shape {
    Shape::record(
        "Point",
        vec![Field::new("x", Shape::Int(IntKind::I32)), Field::new("y", Shape::Int(IntKind::I32))],
    )
}

#[test]
fn scalars_decode_by_their_kind() {
    assert!(matches!(decode(&Value::null(), &Shape::Unit), Ok(Decoded::Unit)));
    assert_eq!(decode(&Value::bool(true), &Shape::Bool).unwrap().as_bool(), Some(true));
    assert_eq!(decode(&integer(-7), &Shape::Int(IntKind::I8)).unwrap().as_integer(), Some(-7));
    assert!(matches!(decode(&integer(7), &Shape::Int(IntKind::I8)), Ok(Decoded::Signed(7))));
    assert!(matches!(decode(&integer(7), &Shape::Int(IntKind::U8)), Ok(Decoded::Unsigned(7))));
    assert_eq!(decode(&text("t"), &Shape::Str).unwrap().as_str(), Some("t"));
    assert_eq!(decode(&integer(3), &Shape::Float).unwrap().as_float(), Some(Number::from_u64(3)));
    assert!(matches!(decode(&text("anything"), &Shape::Ignored), Ok(Decoded::Unit)));
    // A tag is looked through where a scalar is asked for.
    assert_eq!(
        decode(&tagged("!t", integer(1)), &Shape::Int(IntKind::U8)).unwrap().as_integer(),
        Some(1)
    );
    assert_eq!(
        decode(&tagged("!t", tagged("!u", text("s"))), &Shape::Str).unwrap().as_str(),
        Some("s")
    );
}

#[test]
fn integers_are_checked_against_the_range_of_their_type() {
    let kinds = [
        (IntKind::I8, i8::MIN as i128, i8::MAX as i128, "i8"),
        (IntKind::I16, i16::MIN as i128, i16::MAX as i128, "i16"),
        (IntKind::I32, i32::MIN as i128, i32::MAX as i128, "i32"),
        (IntKind::I64, i64::MIN as i128, i64::MAX as i128, "i64"),
        (IntKind::U8, 0, u8::MAX as i128, "u8"),
        (IntKind::U16, 0, u16::MAX as i128, "u16"),
        (IntKind::U32, 0, u32::MAX as i128, "u32"),
        (IntKind::U64, 0, u64::MAX as i128, "u64"),
    ];
    let number = |n: i128| {
        if n < 0 {
            Value::number(Number::from_i64(n as i64))
        } else {
            Value::number(Number::from_u64(n as u64))
        }
    };
    for (kind, min, max, name) in kinds {
        assert_eq!(kind.min() as i128, min);
        assert_eq!(kind.max() as i128, max);
        assert_eq!(kind.name(), name);
        let shape = Shape::Int(kind);
        assert_eq!(decode(&number(min), &shape).unwrap().as_integer(), Some(min));
        assert_eq!(decode(&number(max), &shape).unwrap().as_integer(), Some(max));
        if min > i64::MIN as i128 {
            assert_eq!(
                message(&number(min - 1), &shape),
                format!("invalid value: integer `{}`, expected {}", min - 1, name)
            );
        }
        if max < u64::MAX as i128 {
            assert_eq!(
                message(&number(max + 1), &shape),
                format!("invalid value: integer `{}`, expected {}", max + 1, name)
            );
        }
    }
    assert_eq!(
        message(&Value::number(Number::from_float_bits(1.5f64.to_bits())), &Shape::Int(IntKind::I32)),
        "invalid type: floating point number, expected i32"
    );
}

#[test]
fn a_node_of_the_wrong_kind_is_an_error_that_names_both_kinds() {
    assert_eq!(
        message(&text("2"), &Shape::Int(IntKind::I32)),
        "invalid type: string \"2\", expected i32"
    );
    assert_eq!(
        message(&text("a\"b\n"), &Shape::Bool),
        "invalid type: string \"a\\\"b\\n\", expected a boolean"
    );
    assert_eq!(
        message(&Value::bool(true), &Shape::Str),
        "invalid type: boolean `true`, expected a string"
    );
    assert_eq!(
        message(&Value::bool(false), &Shape::Unit),
        "invalid type: boolean `false`, expected unit"
    );
    assert_eq!(message(&integer(5), &Shape::Str), "invalid type: integer `5`, expected a string");
    assert_eq!(
        message(&integer(-5), &Shape::Bool),
        "invalid type: integer `-5`, expected a boolean"
    );
    assert_eq!(message(&Value::null(), &Shape::Float), "invalid type: unit value, expected f64");
    assert_eq!(
        message(&Value::sequence(vec![]), &Shape::map(Shape::Str, Shape::Str)),
        "invalid type: sequence, expected a map"
    );
    assert_eq!(
        message(&record(vec![]), &Shape::sequence(Shape::Str)),
        "invalid type: map, expected a sequence"
    );
    assert_eq!(
        message(&record(vec![]), &Shape::Int(IntKind::I32)),
        "invalid type: map, expected i32"
    );
    assert_eq!(
        message(&text("p"), &point_shape()),
        "invalid type: string \"p\", expected struct Point"
    );
    assert_eq!(
        message(&integer(1), &Shape::Tuple(vec![Shape::Str, Shape::Str])),
        "invalid type: integer `1`, expected a tuple of size 2"
    );
    assert_eq!(
        message(&tagged("!t", integer(1)), &Shape::Unit),
        "invalid type: enum, expected unit"
    );
    let located = text("2").with_span(Span::new(Marker::new(30, 4, 19), Marker::new(33, 4, 22)));
    let err = decode(&located, &Shape::Int(IntKind::I32)).unwrap_err();
    assert_eq!(err.to_string(), "invalid type: string \"2\", expected i32 at line 4 column 19");
    assert_eq!(err.span().start.index, 30);
    assert!(matches!(err.kind, ErrorKind::InvalidType { .. }));
}

#[test]
fn null_is_the_empty_collection() {
    assert!(
        decode(&Value::null(), &Shape::sequence(Shape::Str)).unwrap().as_sequence().unwrap().is_empty()
    );
    assert!(
        decode(&Value::null(), &Shape::map(Shape::Str, Shape::Str)).unwrap().as_mapping().unwrap().is_empty()
    );
    let optional = Shape::record("O", vec![Field::new("a", Shape::optional(Shape::Str))]);
    let decoded = decode(&Value::null(), &optional).unwrap();
    assert!(matches!(decoded.as_struct().unwrap()[0].as_optional(), Some(None)));
    assert_eq!(message(&Value::null(), &point_shape()), "missing field `x`");
}

#[test]
fn optional_values() {
    let shape = Shape::optional(Shape::Int(IntKind::U8));
    assert!(matches!(decode(&Value::null(), &shape).unwrap().as_optional(), Some(None)));
    assert_eq!(
        decode(&integer(3), &shape).unwrap().as_optional().unwrap().unwrap().as_integer(),
        Some(3)
    );
    assert_eq!(message(&text("x"), &shape), "invalid type: string \"x\", expected u8");
    assert!(decode(&integer(3), &Shape::Int(IntKind::U8)).unwrap().as_optional().is_none());
}

#[test]
fn a_struct_around_one_value_decodes_as_the_value() {
    let shape = Shape::newtype(Shape::Int(IntKind::U8));
    assert_eq!(decode(&integer(3), &shape).unwrap().as_integer(), Some(3));
    assert_eq!(message(&text("x"), &shape), "invalid type: string \"x\", expected u8");
    // The transformer sees the node once, not once for the struct and once
    // for the value.
    let mut unused = Vec::new();
    struct AddOne;
    impl FieldTransformer for AddOne {
        fn transform(&self, v: &Value) -> TransformedResult {
            Ok(v.as_i64().map(|n| Value::number(Number::from_i64(n + 1))))
        }
    }
    let twice = Shape::newtype(Shape::newtype(Shape::optional(Shape::Int(IntKind::U8))));
    let decoded = integer(3).to_typed(&twice, &mut unused, &AddOne).unwrap();
    assert_eq!(decoded.as_optional().unwrap().unwrap().as_integer(), Some(4));
}

#[test]
fn a_character_is_a_text_of_length_one() {
    assert_eq!(decode(&text("a"), &Shape::Char).unwrap().as_char(), Some('a'));
    assert_eq!(decode(&text("\u{20ac}"), &Shape::Char).unwrap().as_char(), Some('\u{20ac}'));
    assert_eq!(
        message(&text("ab"), &Shape::Char),
        "invalid value: string \"ab\", expected a character"
    );
    assert_eq!(message(&text(""), &Shape::Char), "invalid value: string \"\", expected a character");
    assert_eq!(message(&integer(1), &Shape::Char), "invalid type: integer `1`, expected a character");
}

#[test]
fn strings_of_bytes() {
    let bytes = |value: &Value| decode(value, &Shape::Bytes).map(|d| d.as_bytes().unwrap().clone());
    assert_eq!(bytes(&text("abc")).unwrap(), b"abc".to_vec());
    assert_eq!(bytes(&text("\u{e9}\u{20ac}")).unwrap(), vec![0xc3, 0xa9, 0xe2, 0x82, 0xac]);
    assert_eq!(bytes(&text("")).unwrap(), Vec::<u8>::new());
    assert_eq!(
        bytes(&Value::sequence(vec![integer(0), integer(127), integer(255)])).unwrap(),
        vec![0, 127, 255]
    );
    assert_eq!(
        bytes(&Value::sequence(vec![integer(1), integer(256)])).unwrap_err().to_string(),
        "invalid value: integer `256`, expected u8"
    );
    assert_eq!(
        bytes(&Value::sequence(vec![text("a")])).unwrap_err().to_string(),
        "invalid type: string \"a\", expected u8"
    );
    assert_eq!(bytes(&integer(1)).unwrap_err().to_string(), "invalid type: integer `1`, expected byte array");
}

#[test]
fn sequences_and_tuples() {
    let items = Value::sequence(vec![integer(1), integer(2), integer(3)]);
    let decoded = decode(&items, &Shape::sequence(Shape::Int(IntKind::U8))).unwrap();
    let numbers: Vec<i128> =
        decoded.as_sequence().unwrap().iter().map(|d| d.as_integer().unwrap()).collect();
    assert_eq!(numbers, vec![1, 2, 3]);

    let pair = Shape::Tuple(vec![Shape::Int(IntKind::U8), Shape::Str]);
    let decoded = decode(&Value::sequence(vec![integer(1), text("b")]), &pair).unwrap();
    let fields = decoded.as_sequence().unwrap();
    assert_eq!(fields[0].as_integer(), Some(1));
    assert_eq!(fields[1].as_str(), Some("b"));
    assert_eq!(
        message(&Value::sequence(vec![integer(1)]), &pair),
        "invalid length 1, expected a tuple of size 2"
    );
    assert_eq!(message(&Value::null(), &pair), "invalid length 0, expected a tuple of size 2");
    assert_eq!(
        message(&Value::sequence(vec![integer(1), text("b"), text("c")]), &pair),
        "invalid length 3, expected fewer elements in sequence"
    );
    assert_eq!(
        message(&Value::sequence(vec![integer(1), integer(2)]), &pair),
        "invalid type: integer `2`, expected a string"
    );
}

#[test]
fn maps_keep_the_order_of_the_document() {
    let value = record(vec![("b", integer(2)), ("a", integer(1))]);
    let decoded = decode(&value, &Shape::map(Shape::Str, Shape::Int(IntKind::U8))).unwrap();
    let entries: Vec<(&str, i128)> = decoded
        .as_mapping()
        .unwrap()
        .iter()
        .map(|(k, v)| (k.as_str().unwrap(), v.as_integer().unwrap()))
        .collect();
    assert_eq!(entries, vec![("b", 2), ("a", 1)]);
    assert_eq!(
        message(&mapping(vec![(integer(1), integer(2))]), &Shape::map(Shape::Str, Shape::Int(IntKind::U8))),
        "invalid type: integer `1`, expected a string"
    );
    let by_number = decode(
        &mapping(vec![(integer(1), text("one"))]),
        &Shape::map(Shape::Int(IntKind::U8), Shape::Str),
    )
    .unwrap();
    assert_eq!(by_number.as_mapping().unwrap()[0].0.as_integer(), Some(1));
}

#[test]
fn a_transformer_does_not_see_the_keys_of_a_map() {
    let value = record(vec![("k", text("v"))]);
    let mut unused = Vec::new();
    let decoded = value
        .to_typed(&Shape::map(Shape::Str, Shape::Str), &mut unused, &RewriteScalars)
        .unwrap();
    let entries = decoded.as_mapping().unwrap();
    assert_eq!(entries[0].0.as_str(), Some("k"));
    assert_eq!(entries[0].1.as_str(), Some("changed"));
}

#[test]
fn structs_take_their_fields_by_name() {
    let value = record(vec![("y", integer(2)), ("x", integer(1))]);
    let decoded = decode(&value, &point_shape()).unwrap();
    let fields = decoded.as_struct().unwrap();
    assert_eq!(fields[0].as_integer(), Some(1));
    assert_eq!(fields[1].as_integer(), Some(2));

    assert_eq!(message(&record(vec![("x", integer(1))]), &point_shape()), "missing field `y`");
    assert_eq!(
        message(&mapping(vec![(integer(1), integer(2))]), &point_shape()),
        "invalid type: integer `1`, expected field identifier"
    );
    assert_eq!(
        message(&record(vec![("x", integer(1)), ("y", text("no"))]), &point_shape()),
        "invalid type: string \"no\", expected i32"
    );
    // A key that looks like the name of a catch-all field waits for one; a
    // struct without one is then left with entries that nothing takes.
    assert_eq!(
        message(&record(vec![("x", integer(1)), ("y", integer(2)), ("__rest__", integer(3))]), &point_shape()),
        "invalid length 3, expected fewer elements in struct"
    );
    let located = record(vec![("x", integer(1))])
        .with_span(Span::new(Marker::new(40, 5, 12), Marker::new(50, 6, 1)));
    assert_eq!(
        decode(&located, &point_shape()).unwrap_err().to_string(),
        "missing field `y` at line 5 column 12"
    );
}

#[test]
fn an_unused_key_is_reported_once_with_its_path() {
    let inner = || Shape::record("Inner", vec![Field::new("c", Shape::Int(IntKind::U8))]);
    let outer = Shape::record(
        "Outer",
        vec![
            Field::new("a", Shape::record("A", vec![Field::new("b", Shape::sequence(inner()))])),
            Field::new("n", Shape::Int(IntKind::U8)),
        ],
    );
    let value = record(vec![
        ("extra", integer(0)),
        (
            "a",
            record(vec![
                (
                    "b",
                    Value::sequence(vec![
                        record(vec![("c", integer(1))]),
                        record(vec![("c", integer(2)), ("d", integer(3))]),
                        record(vec![("e", integer(4)), ("c", integer(5)), ("f", integer(6))]),
                    ]),
                ),
                ("z", text("unused")),
            ]),
        ),
        ("n", integer(9)),
        ("last", Value::null()),
    ]);
    let mut unused = Vec::new();
    value.to_typed(&outer, &mut unused, &NoTransform).unwrap();
    assert_eq!(paths(&unused), vec!["extra", "a.b[1].d", "a.b[2].e", "a.b[2].f", "a.z", "last"]);
    assert_eq!(unused[1].key, text("d"));
    assert_eq!(unused[1].value, integer(3));
    assert_eq!(unused[4].value, text("unused"));

    // A decode that fails has reported the keys that it passed.
    let mut unused = Vec::new();
    let failing = record(vec![("early", integer(0)), ("n", text("no")), ("late", integer(1))]);
    assert!(failing.to_typed(&outer, &mut unused, &NoTransform).is_err());
    assert_eq!(paths(&unused), vec!["early"]);
}

#[test]
fn a_catch_all_field_takes_the_keys_that_no_field_takes() {
    let shape = Shape::record(
        "S",
        vec![
            Field::new("known", Shape::Int(IntKind::U8)),
            Field::new("__rest__", Shape::map(Shape::Str, Shape::Int(IntKind::U8))),
        ],
    );
    let value = record(vec![("a", integer(1)), ("known", integer(2)), ("b", integer(3))]);
    let mut unused = Vec::new();
    let decoded = value.to_typed(&shape, &mut unused, &NoTransform).unwrap();
    assert!(unused.is_empty());
    let fields = decoded.as_struct().unwrap();
    assert_eq!(fields[0].as_integer(), Some(2));
    let rest: Vec<(&str, i128)> = fields[1]
        .as_mapping()
        .unwrap()
        .iter()
        .map(|(k, v)| (k.as_str().unwrap(), v.as_integer().unwrap()))
        .collect();
    assert_eq!(rest, vec![("a", 1), ("b", 3)]);
}

#[test]
fn catch_all_fields_form_a_chain() {
    let first = Shape::record("First", vec![Field::new("a", Shape::Int(IntKind::U8))]);
    let second = Shape::record(
        "Second",
        vec![
            Field::new("b", Shape::Int(IntKind::U8)),
            Field::new("missing", Shape::optional(Shape::Str)),
        ],
    );
    let shape = Shape::record(
        "Chain",
        vec![
            Field::new("__first__", first),
            Field::new("own", Shape::Str),
            Field::new("__second__", second),
        ],
    );
    let value = record(vec![("b", integer(2)), ("own", text("mine")), ("c", integer(3)), ("a", integer(1))]);
    let mut unused = Vec::new();
    let decoded = value.to_typed(&shape, &mut unused, &NoTransform).unwrap();
    let fields = decoded.as_struct().unwrap();
    assert_eq!(fields[0].as_struct().unwrap()[0].as_integer(), Some(1));
    assert_eq!(fields[1].as_str(), Some("mine"));
    assert_eq!(fields[2].as_struct().unwrap()[0].as_integer(), Some(2));
    assert!(matches!(fields[2].as_struct().unwrap()[1].as_optional(), Some(None)));
    // The first catch-all field hands on what it has no field for; the last
    // one reports what it has no field for.
    assert_eq!(paths(&unused), vec!["__second__.c"]);
}

fn shape_enum() -> Shape {
    Shape::Enum(EnumShape::new(
        "E",
        vec![
            VariantShape::new("Unit", Payload::Unit),
            VariantShape::new("New", Payload::Newtype(Shape::Int(IntKind::U8))),
            VariantShape::new("Pair", Payload::Tuple(vec![Shape::Int(IntKind::U8), Shape::Str])),
            VariantShape::new(
                "Rec",
                Payload::Struct(dbt_serde_yaml::StructShape {
                    name: "Rec".to_string(),
                    fields: vec![Field::new("x", Shape::Int(IntKind::U8))],
                }),
            ),
        ],
    ))
}

#[test]
fn enums_decode_from_tags_and_texts() {
    let shape = shape_enum();
    let variant = |value: &Value| {
        let decoded = decode(value, &shape).unwrap();
        let (name, _) = decoded.as_variant().unwrap();
        name.to_string()
    };
    assert_eq!(variant(&text("Unit")), "Unit");
    assert_eq!(variant(&tagged("!Unit", Value::null())), "Unit");
    assert_eq!(variant(&tagged("Unit", Value::null())), "Unit");

    let decoded = decode(&tagged("!New", integer(7)), &shape).unwrap();
    let (name, payload) = decoded.as_variant().unwrap();
    assert_eq!((name, payload.as_integer()), ("New", Some(7)));

    let decoded = decode(&tagged("!Pair", Value::sequence(vec![integer(1), text("b")])), &shape).unwrap();
    let (_, payload) = decoded.as_variant().unwrap();
    assert_eq!(payload.as_sequence().unwrap()[1].as_str(), Some("b"));

    let mut unused = Vec::new();
    let decoded = tagged("!Rec", record(vec![("x", integer(1)), ("y", integer(2))]))
        .to_typed(&shape, &mut unused, &NoTransform)
        .unwrap();
    let (_, payload) = decoded.as_variant().unwrap();
    assert_eq!(payload.as_struct().unwrap()[0].as_integer(), Some(1));
    assert_eq!(paths(&unused), vec!["y"]);

    assert_eq!(
        message(&text("Nope"), &shape),
        "unknown variant `Nope`, expected one of `Unit`, `New`, `Pair`, `Rec`"
    );
    assert_eq!(
        message(&integer(1), &shape),
        "invalid type: integer `1`, expected a Value::Tagged enum"
    );
    assert_eq!(
        message(&text("New"), &shape),
        "invalid type: unit variant, expected newtype variant"
    );
    assert_eq!(
        message(&text("Pair"), &shape),
        "invalid type: unit variant, expected tuple variant"
    );
    assert_eq!(
        message(&text("Rec"), &shape),
        "invalid type: unit variant, expected struct variant"
    );
    assert_eq!(
        message(&tagged("!Unit", integer(1)), &shape),
        "invalid type: integer `1`, expected unit"
    );
    assert_eq!(
        message(&tagged("!Pair", integer(1)), &shape),
        "invalid type: integer `1`, expected tuple variant"
    );
    assert_eq!(
        message(&tagged("!Rec", integer(1)), &shape),
        "invalid type: integer `1`, expected struct variant"
    );
    assert_eq!(
        message(&tagged("!Pair", Value::sequence(vec![integer(1)])), &shape),
        "invalid length 1, expected tuple variant"
    );

    let one = Shape::Enum(EnumShape::new("One", vec![VariantShape::new("A", Payload::Unit)]));
    assert_eq!(message(&text("B"), &one), "unknown variant `B`, expected `A`");
    let two = Shape::Enum(EnumShape::new(
        "Two",
        vec![VariantShape::new("A", Payload::Unit), VariantShape::new("B", Payload::Unit)],
    ));
    assert_eq!(message(&text("C"), &two), "unknown variant `C`, expected `A` or `B`");
    let none = Shape::Enum(EnumShape::new("None", vec![]));
    assert_eq!(message(&text("C"), &none), "unknown variant `C`, there are no variants");
}

#[test]
fn consuming_and_borrowing_give_the_same() {
    let shape = Shape::record(
        "S",
        vec![
            Field::new("a", Shape::sequence(Shape::optional(Shape::Str))),
            Field::new("b", Shape::should_be(Shape::Int(IntKind::U8))),
            Field::new("c", Shape::Any),
        ],
    );
    let value = record(vec![
        ("a", Value::sequence(vec![text("x"), Value::null()])),
        ("b", text("not a number")),
        ("c", record(vec![("deep", integer(1))])),
        ("d", integer(0)),
    ]);
    let mut by_reference = Vec::new();
    let borrowed = value.to_typed(&shape, &mut by_reference, &RewriteScalars).unwrap();
    let mut by_value = Vec::new();
    let consumed = value.duplicate().into_typed(&shape, &mut by_value, &RewriteScalars).unwrap();
    assert_eq!(format!("{:?}", borrowed), format!("{:?}", consumed));
    assert_eq!(format!("{:?}", by_reference), format!("{:?}", by_value));
    assert_eq!(paths(&by_value), vec!["d"]);

    let other = ValueDeserializer::new(value.duplicate(), &NoTransform)
        .deserialize(&shape, &mut by_value)
        .unwrap();
    let same = ValueRefDeserializer::new(&value, &NoTransform)
        .deserialize(&shape, &mut by_reference)
        .unwrap();
    assert_eq!(format!("{:?}", other), format!("{:?}", same));
}

#[test]
fn decoding_into_a_node_gives_the_document_back() {
    let value = record(vec![
        ("a", Value::sequence(vec![text("x"), Value::null(), integer(-1)])),
        ("b", tagged("!t", record(vec![("deep", Value::bool(true))]))),
        ("c", Value::number(Number::from_float_bits(2.5f64.to_bits()))),
    ])
    .with_span(Span::new(Marker::new(0, 1, 1), Marker::new(9, 2, 1)));
    let decoded = decode(&value, &Shape::Any).unwrap();
    assert_eq!(decoded.as_value(), Some(&value));
    assert_eq!(decoded.as_value().unwrap().span(), value.span());
}

#[test]
fn a_transformer_rewrites_a_tree_from_the_root_down() {
    let value = record(vec![("a", Value::sequence(vec![text("x"), Value::bool(true)]))]);
    let mut unused = Vec::new();
    let decoded = value.to_typed(&Shape::Any, &mut unused, &RewriteScalars).unwrap();
    let expected =
        record(vec![("a", Value::sequence(vec![text("changed"), Value::bool(true)]))]);
    assert_eq!(decoded.as_value(), Some(&expected));
}

#[test]
fn a_field_that_may_fail_keeps_the_node_and_the_error() {
    let shape = Shape::record(
        "S",
        vec![
            Field::new("good", Shape::should_be(Shape::Int(IntKind::U8))),
            Field::new("bad", Shape::should_be(point_shape())),
            Field::new("absent", Shape::should_be(Shape::Str)),
            Field::new("maybe", Shape::should_be(Shape::optional(Shape::Str))),
        ],
    );
    let raw = record(vec![("x", integer(1)), ("y", Value::sequence(vec![text("deep")]))]);
    let value = record(vec![("good", integer(1)), ("bad", raw.duplicate())]);
    let decoded = decode(&value, &shape).unwrap();
    let fields = decoded.as_struct().unwrap();
    let good = fields[0].as_should_be().unwrap();
    assert_eq!(good.as_ref().unwrap().as_integer(), Some(1));
    let bad = fields[1].as_should_be().unwrap();
    assert!(bad.isnt());
    assert_eq!(bad.as_ref_raw(), Some(&raw));
    assert_eq!(
        bad.as_ref_err().unwrap().to_string(),
        "invalid type: sequence, expected i32"
    );
    let absent = fields[2].as_should_be().unwrap();
    assert!(absent.isnt());
    assert_eq!(absent.as_ref_raw(), None);
    assert_eq!(absent.as_ref_err().unwrap().to_string(), "missing field `absent`");
    let maybe = fields[3].as_should_be().unwrap();
    assert!(matches!(maybe.as_ref().unwrap().as_optional(), Some(None)));

    // The failure of a transformer is kept as well.
    let mut unused = Vec::new();
    let decoded = text("t").to_typed(&Shape::should_be(Shape::Str), &mut unused, &AlwaysFails).unwrap();
    let kept = decoded.as_should_be().unwrap();
    assert_eq!(kept.as_ref_raw(), Some(&text("t")));
    assert!(kept.as_ref_err().unwrap().is_external());
    assert_eq!(kept.as_ref_err().unwrap().to_string(), "no");
}

#[test]
fn a_verbatim_field_is_kept_from_the_transformer_and_its_sibling_is_not() {
    let shape = Shape::record(
        "S",
        vec![
            Field::new("kept", Shape::verbatim(Shape::Str)),
            Field::new("sibling", Shape::Str),
            Field::new("number", Shape::verbatim(Shape::Int(IntKind::U8))),
            Field::new("old", Shape::verbatim_legacy(Shape::sequence(Shape::Str))),
        ],
    );
    let value = record(vec![
        ("kept", text("as it is")),
        ("sibling", text("as it is")),
        ("number", integer(7)),
        ("old", Value::sequence(vec![text("one"), text("two")])),
    ]);
    let mut unused = Vec::new();
    let decoded = value.to_typed(&shape, &mut unused, &RewriteScalars).unwrap();
    let fields = decoded.as_struct().unwrap();
    assert_eq!(fields[0].as_verbatim().unwrap().as_ref(), Some(&text("as it is")));
    assert_eq!(fields[1].as_str(), Some("changed"));
    assert_eq!(fields[2].as_verbatim().unwrap().as_ref(), Some(&integer(7)));
    let old: Vec<&str> = fields[3]
        .as_verbatim_legacy()
        .unwrap()
        .as_sequence()
        .unwrap()
        .iter()
        .map(|d| d.as_str().unwrap())
        .collect();
    assert_eq!(old, vec!["one", "two"]);

    // What was captured decodes later, with or without a transformer.
    let captured = fields[2].as_verbatim().unwrap();
    assert_eq!(captured.to_typed_default(&Shape::Int(IntKind::U8)).unwrap().as_integer(), Some(7));
    assert_eq!(
        captured.to_typed(&Shape::Str, &mut unused, &RewriteScalars).unwrap().as_str(),
        Some("changed")
    );
    assert_eq!(
        captured
            .duplicate()
            .into_typed(&Shape::Int(IntKind::U8), &mut unused, &NoTransform)
            .unwrap()
            .as_integer(),
        Some(7)
    );
    assert_eq!(
        captured.duplicate().into_typed_default(&Shape::Str).unwrap_err().to_string(),
        "invalid type: integer `7`, expected a string"
    );
}

#[test]
fn an_absent_verbatim_field_is_not_a_present_null() {
    let shape = Shape::record(
        "S",
        vec![
            Field::new("present", Shape::verbatim(Shape::optional(Shape::Str))),
            Field::new("absent", Shape::verbatim(Shape::optional(Shape::Str))),
        ],
    );
    let decoded = decode(&record(vec![("present", Value::null())]), &shape).unwrap();
    let fields = decoded.as_struct().unwrap();
    let present = fields[0].as_verbatim().unwrap();
    let absent = fields[1].as_verbatim().unwrap();
    assert!(present.is_present());
    assert!(!present.is_missing());
    assert_eq!(present.as_ref(), Some(&Value::null()));
    assert!(absent.is_missing());
    assert!(!absent.is_present());
    assert_eq!(absent.as_ref(), None);
    assert!(
        matches!(absent.to_typed_default(&Shape::optional(Shape::Str)).unwrap().as_optional(), Some(None))
    );
    assert!(
        matches!(present.to_typed_default(&Shape::optional(Shape::Str)).unwrap().as_optional(), Some(None))
    );
    assert_eq!(
        absent.to_typed_default(&Shape::Str).unwrap_err().to_string(),
        "missing field"
    );

    // A verbatim field whose content could not be absent is required.
    let required = Shape::record("R", vec![Field::new("must", Shape::verbatim(Shape::Str))]);
    assert_eq!(message(&record(vec![]), &required), "missing field `must`");

    assert!(Verbatim::new_missing().is_missing());
    assert_eq!(Verbatim::new(text("v")).into_inner(), Some(text("v")));
    assert_eq!(Verbatim::new_missing().into_inner(), None);
}

#[test]
fn the_error_of_a_transformer_is_handed_back() {
    let mut unused = Vec::new();
    let located = text("t").with_span(Span::new(Marker::new(4, 2, 1), Marker::new(5, 2, 2)));
    let value = record(vec![("a", integer(1)), ("b", located)]);
    struct FailsOnTexts;
    impl FieldTransformer for FailsOnTexts {
        fn transform(&self, v: &Value) -> TransformedResult {
            match v.as_str() {
                Some(s) => Err(ExternalError { message: format!("cannot take {}", s) }),
                None => Ok(None),
            }
        }
    }
    let shape = Shape::map(Shape::Str, Shape::Any);
    let err = value.to_typed(&shape, &mut unused, &FailsOnTexts).unwrap_err();
    assert!(err.is_external());
    assert_eq!(err.to_string(), "cannot take t at line 2 column 1");
    assert_eq!(err.into_external().unwrap().message, "cannot take t");
    assert!(Error::custom("words".to_string()).into_external().is_none());
}

#[test]
fn a_field_that_is_given_twice_is_an_error() {
    // A mapping holds each key once, so entries with a repeated key can only
    // come from a list of pairs that was put together by hand.
    let entries = vec![
        (text("x"), integer(1)),
        (text("y"), integer(2)),
        (text("x"), integer(3)),
    ];
    let shape = match point_shape() {
        Shape::Struct(s) => s,
        _ => unreachable!(),
    };
    let mut unused = Vec::new();
    let err = dbt_serde_yaml::de::structs::visit_struct_ref(
        &entries,
        &shape,
        dbt_serde_yaml::Path::Root,
        Span::zero(),
        &NoTransform,
        true,
        false,
        &mut unused,
    )
    .unwrap_err();
    assert!(matches!(err.kind, ErrorKind::DuplicateField(_)));
    assert_eq!(err.to_string(), "duplicate field `x`");
}
