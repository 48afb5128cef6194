use dbt_serde_yaml::scalar::float_candidate;
use dbt_serde_yaml::{
    Decoded, DuplicateKey, Event, EventKind, ExternalError, Field, FieldTransformer, IntKind,
    Mapping, Marker, NoTransform, Number, Position, ScalarStyle, Shape, TransformedResult,
    UnusedKey, Value,
};
use std::collections::HashMap;

// ---------------------------------------------------------------------------
// Support: reading scalars and writing documents as events.

/// Reads a plain scalar the way a parser front end does: the float parser of
/// the standard library answers for the candidate text.
fn float_of(text: &str) -> Option<u64> {
    float_candidate(text)
        .and_then(|candidate| candidate.parse::<f64>().ok())
        .map(f64::to_bits)
}

fn read(text: &str) -> Value {
    Value::from_scalar(text, float_of(text))
}

/// The marker of the byte at `index` of `yaml`.
fn marker(yaml: &str, index: usize) -> Marker {
    let before = &yaml[..index];
    let line = before.matches('\n').count() + 1;
    let column = match before.rfind('\n') {
        Some(newline) => index - newline,
        None => index + 1,
    };
    Marker::new(index, line, column)
}

/// The byte offset of the `nth` occurrence of `needle` in `yaml`.
fn offset(yaml: &str, needle: &str, nth: usize) -> usize {
    let mut from = 0;
    let mut seen = 0;
    loop {
        let at = from + yaml[from..].find(needle).expect("needle occurs");
        if seen == nth {
            return at;
        }
        seen += 1;
        from = at + 1;
    }
}

fn event(kind: EventKind, yaml: &str, start: usize, end: usize) -> Event {
    Event { kind, anchor: None, tag: None, start: marker(yaml, start), end: marker(yaml, end) }
}

/// The event of the plain scalar `text`, at its `nth` occurrence in `yaml`.
fn plain(yaml: &str, text: &str, nth: usize) -> Event {
    let start = offset(yaml, text, nth);
    event(
        EventKind::Scalar {
            text: text.to_string(),
            style: ScalarStyle::Plain,
            float: float_of(text),
        },
        yaml,
        start,
        start + text.len(),
    )
}

/// An event without a place in a source text.
fn bare(kind: EventKind) -> Event {
    Event { kind, anchor: None, tag: None, start: Marker::start(), end: Marker::start() }
}

fn bare_scalar(text: &str) -> Event {
    bare(EventKind::Scalar {
        text: text.to_string(),
        style: ScalarStyle::Plain,
        float: float_of(text),
    })
}

fn anchored(mut event: Event, name: &str) -> Event {
    event.anchor = Some(name.to_string());
    event
}

fn tagged(mut event: Event, tag: &str) -> Event {
    event.tag = Some(tag.to_string());
    event
}

fn alias(name: &str) -> Event {
    bare(EventKind::Alias { name: name.to_string() })
}

fn parse(events: &Vec<Event>) -> Value {
    let mut position = Position::new();
    Value::from_events(events, &DuplicateKey::Error, &mut position).unwrap()
}

/// The events of a block mapping of plain scalars, without places.
fn bare_mapping(pairs: &[(&str, &str)]) -> Vec<Event> {
    let mut events = vec![bare(EventKind::MappingStart)];
    for (key, value) in pairs {
        events.push(bare_scalar(key));
        events.push(bare_scalar(value));
    }
    events.push(bare(EventKind::MappingEnd));
    events
}

// ---------------------------------------------------------------------------
// Support: building values and reading decoded values.

fn text(s: &str) -> Value {
    Value::string(s.to_string())
}

fn mapping(pairs: Vec<(Value, Value)>) -> Value {
    let mut m = Mapping::new();
    for (k, v) in pairs {
        m.insert(k, v);
    }
    Value::mapping(m)
}

fn field(name: &str, shape: Shape) -> Field {
    Field::new(name, shape)
}

fn map_of<'a>(decoded: &'a Decoded) -> HashMap<String, &'a Decoded> {
    decoded
        .as_mapping()
        .expect("a map")
        .iter()
        .map(|(k, v)| (k.as_str().expect("a text key").to_string(), v))
        .collect()
}

fn optional_int(decoded: &Decoded) -> Option<i128> {
    decoded.as_optional().expect("an optional").map(|d| d.as_integer().expect("an integer"))
}

fn keys_of(unused: &Vec<UnusedKey>) -> Vec<&Value> {
    unused.iter().map(|report| &report.key).collect()
}

// ---------------------------------------------------------------------------
// Support: transformers.

/// Appends " name" to every text.
struct AppendName;

impl FieldTransformer for AppendName {
    fn transform(&self, v: &Value) -> TransformedResult {
        match v {
            Value::String(s, span) => Ok(Some(Value::String(format!("{} name", s), *span))),
            _ => Ok(None),
        }
    }
}

/// Adds a fixed amount to every integer.
struct Add(i64);

impl FieldTransformer for Add {
    fn transform(&self, v: &Value) -> TransformedResult {
        match v.as_i64() {
            Some(n) => Ok(Some(Value::number(Number::from_i64(n + self.0)))),
            None => Ok(None),
        }
    }
}

/// Replaces every integer by null.
struct NullifyIntegers;

impl FieldTransformer for NullifyIntegers {
    fn transform(&self, v: &Value) -> TransformedResult {
        if v.as_i64().is_some() {
            Ok(Some(Value::null()))
        } else {
            Ok(None)
        }
    }
}

/// Fails on every text.
struct Failing;

impl FieldTransformer for Failing {
    fn transform(&self, v: &Value) -> TransformedResult {
        Err(ExternalError { message: format!("error {}", v.as_str().unwrap()) })
    }
}

// ---------------------------------------------------------------------------

#[test]
fn test_nan() {
    let pos_nan = read(".nan");
    assert!(pos_nan.is_f64());
    assert_eq!(pos_nan, pos_nan);

    let neg_fake_nan = read("-.nan");
    assert!(neg_fake_nan.is_string());

    let significand_mask = 0xF_FFFF_FFFF_FFFF;
    let bits = (f64::NAN.copysign(1.0).to_bits() ^ significand_mask) | 1;
    let different_pos_nan = Value::number(Number::from_float_bits(bits));
    assert_eq!(pos_nan, different_pos_nan);
}

#[test]
fn test_digits() {
    let num_string = read("01");
    assert!(num_string.is_string());
}

#[test]
fn test_into_deserializer() {
    let mut unused = Vec::new();

    let value = read("xyz");
    let s = value.into_typed(&Shape::Str, &mut unused, &NoTransform).unwrap();
    assert_eq!(s.as_str(), Some("xyz"));

    let value = parse(&vec![
        bare(EventKind::SequenceStart),
        bare_scalar("first"),
        bare_scalar("second"),
        bare_scalar("third"),
        bare(EventKind::SequenceEnd),
    ]);
    let arr = value.into_typed(&Shape::sequence(Shape::Str), &mut unused, &NoTransform).unwrap();
    let arr: Vec<&str> = arr.as_sequence().unwrap().iter().map(|d| d.as_str().unwrap()).collect();
    assert_eq!(arr, &["first", "second", "third"]);

    let test_shape = Shape::record(
        "Test",
        vec![field("first", Shape::Str), field("second", Shape::Int(IntKind::U32))],
    );
    let value = parse(&bare_mapping(&[("first", "abc"), ("second", "99")]));
    let test = value.into_typed(&test_shape, &mut unused, &NoTransform).unwrap();
    let test = test.as_struct().unwrap();
    assert_eq!(test[0].as_str(), Some("abc"));
    assert_eq!(test[1].as_integer(), Some(99));
}

#[test]
fn test_into_typed() {
    let mut unused_keys: Vec<UnusedKey> = vec![];

    let value = read("xyz");
    let s = value.into_typed(&Shape::Str, &mut unused_keys, &NoTransform).unwrap();
    assert!(unused_keys.is_empty());
    assert_eq!(s.as_str(), Some("xyz"));

    let value = parse(&vec![
        bare(EventKind::SequenceStart),
        bare_scalar("first"),
        bare_scalar("second"),
        bare_scalar("third"),
        bare(EventKind::SequenceEnd),
    ]);
    let arr = value.into_typed(&Shape::sequence(Shape::Str), &mut unused_keys, &AppendName).unwrap();
    assert!(unused_keys.is_empty());
    let arr: Vec<&str> = arr.as_sequence().unwrap().iter().map(|d| d.as_str().unwrap()).collect();
    assert_eq!(arr, &["first name", "second name", "third name"]);

    let test_shape = || {
        Shape::record(
            "Test",
            vec![field("first", Shape::Str), field("second", Shape::Int(IntKind::U32))],
        )
    };
    let test2_shape = Shape::record(
        "Test2",
        vec![
            field("first", Shape::verbatim_legacy(Shape::Any)),
            field("third", Shape::Int(IntKind::U32)),
        ],
    );

    let value = parse(&bare_mapping(&[("first", "abc"), ("second", "99"), ("third", "100")]));

    let test = value.duplicate().into_typed(&test_shape(), &mut unused_keys, &AppendName).unwrap();
    assert_eq!(keys_of(&unused_keys), vec![&text("third")]);
    let test = test.as_struct().unwrap();
    assert_eq!(test[0].as_str(), Some("abc name"));
    assert_eq!(test[1].as_integer(), Some(99));

    unused_keys.clear();
    let test2 = value.into_typed(&test2_shape, &mut unused_keys, &AppendName).unwrap();
    assert_eq!(keys_of(&unused_keys), vec![&text("second")]);
    let test2 = test2.as_struct().unwrap();
    // The field transformer is not applied to verbatim fields:
    assert_eq!(test2[0].as_verbatim_legacy().unwrap().as_value(), Some(&text("abc")));
    assert_eq!(test2[1].as_integer(), Some(100));
    unused_keys.clear();

    let test3_shape = Shape::record(
        "Test3",
        vec![
            field("first", test_shape()),
            field("seconds", Shape::sequence(Shape::verbatim_legacy(Shape::Any))),
            field("third", Shape::optional(Shape::Any)),
            field("fourth", Shape::optional(Shape::optional(Shape::Str))),
            field("__rest__", Shape::optional(Shape::map(Shape::Str, Shape::Any))),
        ],
    );

    let mut events = vec![bare(EventKind::MappingStart)];
    events.push(bare_scalar("first"));
    events.extend(bare_mapping(&[("first", "abc"), ("second", "99"), ("third", "100")]));
    events.push(bare_scalar("seconds"));
    events.push(bare(EventKind::SequenceStart));
    events.extend(bare_mapping(&[("first", "A"), ("second", "1"), ("third", "1")]));
    events.extend(bare_mapping(&[("first", "B"), ("third", "2")]));
    events.push(bare(EventKind::SequenceEnd));
    events.push(bare_scalar("fourth"));
    events.push(bare_scalar("xyz"));
    events.push(bare_scalar("third"));
    events.push(bare_scalar("xyz"));
    events.push(bare_scalar("fifth"));
    events.extend(bare_mapping(&[("sixth", "cde")]));
    events.push(bare(EventKind::MappingEnd));
    let value = parse(&events);

    let test3 = value.into_typed(&test3_shape, &mut unused_keys, &AppendName).unwrap();
    let test3 = test3.as_struct().unwrap();

    assert_eq!(keys_of(&unused_keys), vec![&text("third")]);
    unused_keys.clear();

    let first = test3[0].as_struct().unwrap();
    assert_eq!(first[0].as_str(), Some("abc name"));
    assert_eq!(first[1].as_integer(), Some(99));
    assert_eq!(
        test3[2].as_optional().unwrap().unwrap().as_value(),
        Some(&text("xyz name"))
    );
    assert_eq!(
        test3[3].as_optional().unwrap().unwrap().as_optional().unwrap().unwrap().as_str(),
        Some("xyz name")
    );
    let rest = map_of(test3[4].as_optional().unwrap().unwrap());
    assert_eq!(rest.len(), 1);
    assert_eq!(
        rest["fifth"].as_value(),
        Some(&mapping(vec![(text("sixth"), text("cde name"))]))
    );
    let seconds = test3[1].as_sequence().unwrap();
    assert_eq!(seconds.len(), 2);
    let test2_1 = seconds[0]
        .as_verbatim_legacy()
        .unwrap()
        .as_value()
        .unwrap()
        .duplicate()
        .into_typed(&test2_shape, &mut unused_keys, &Add(2))
        .unwrap();
    assert_eq!(keys_of(&unused_keys), vec![&text("second")]);
    let test2_1 = test2_1.as_struct().unwrap();
    assert_eq!(test2_1[0].as_verbatim_legacy().unwrap().as_value(), Some(&text("A")));
    assert_eq!(test2_1[1].as_integer(), Some(3));
}

#[test]
fn test_into_typed_external_err() {
    let mut unused = Vec::new();
    let value = read("xyz");
    let err = value.into_typed(&Shape::Str, &mut unused, &Failing).unwrap_err();
    assert!(unused.is_empty());
    assert!(err.is_external());
    assert_eq!(err.into_external().unwrap().message, "error xyz".to_string());
}

#[test]
fn test_merge() {
    // From https://yaml.org/type/merge.html.
    let flow = |anchor: Option<&str>, pairs: &[(&str, &str)]| {
        let mut events = bare_mapping(pairs);
        if let Some(name) = anchor {
            events[0].anchor = Some(name.to_string());
        }
        events
    };
    let mut events = vec![bare(EventKind::SequenceStart)];
    events.extend(flow(Some("CENTER"), &[("x", "1"), ("y", "2")]));
    events.extend(flow(Some("LEFT"), &[("x", "0"), ("y", "2")]));
    events.extend(flow(Some("BIG"), &[("r", "10")]));
    events.extend(flow(Some("SMALL"), &[("r", "1")]));
    // Explicit keys
    events.extend(flow(None, &[("x", "1"), ("y", "2"), ("r", "10"), ("label", "center/big")]));
    // Merge one map
    events.push(bare(EventKind::MappingStart));
    events.push(bare_scalar("<<"));
    events.push(alias("CENTER"));
    events.push(bare_scalar("r"));
    events.push(bare_scalar("10"));
    events.push(bare_scalar("label"));
    events.push(bare_scalar("center/big"));
    events.push(bare(EventKind::MappingEnd));
    // Merge multiple maps
    events.push(bare(EventKind::MappingStart));
    events.push(bare_scalar("<<"));
    events.push(bare(EventKind::SequenceStart));
    events.push(alias("CENTER"));
    events.push(alias("BIG"));
    events.push(bare(EventKind::SequenceEnd));
    events.push(bare_scalar("label"));
    events.push(bare_scalar("center/big"));
    events.push(bare(EventKind::MappingEnd));
    // Override
    events.push(bare(EventKind::MappingStart));
    events.push(bare_scalar("<<"));
    events.push(bare(EventKind::SequenceStart));
    events.push(alias("BIG"));
    events.push(alias("LEFT"));
    events.push(alias("SMALL"));
    events.push(bare(EventKind::SequenceEnd));
    events.push(bare_scalar("x"));
    events.push(bare_scalar("1"));
    events.push(bare_scalar("label"));
    events.push(bare_scalar("center/big"));
    events.push(bare(EventKind::MappingEnd));
    events.push(bare(EventKind::SequenceEnd));

    let mut value = parse(&events);
    assert!(value.span().is_valid());
    value.apply_merge().unwrap();
    for i in 5..=7 {
        assert_eq!(value.at(4), value.at(i));
    }
    assert!(value.at(4).is_some());
    assert!(value.at(8).is_none());
    assert!(value.get("x").is_none());
}

#[test]
fn test_value_span() {
    let yaml = "x: 1.0\ny: 2.0\n";
    let events = vec![
        event(EventKind::MappingStart, yaml, 0, 0),
        plain(yaml, "x", 0),
        plain(yaml, "1.0", 0),
        plain(yaml, "y", 0),
        plain(yaml, "2.0", 0),
        event(EventKind::MappingEnd, yaml, 14, 14),
    ];
    let value = parse(&events);
    assert!(value.span().is_valid());
    assert_eq!(value.span().start.index, 0);
    assert_eq!(value.span().start.line, 1);
    assert_eq!(value.span().start.column, 1);
    assert_eq!(value.span().end.index, 14);
    assert_eq!(value.span().end.line, 3);
    assert_eq!(value.span().end.column, 1);

    match value {
        Value::Mapping(map, ..) => {
            let v = map.get(&text("x")).unwrap();
            assert!(v.span().is_valid());
            assert_eq!(v.span().start.line, 1);
            assert_eq!(v.span().start.column, 4);
            assert_eq!(v.span().end.line, 2);
            assert_eq!(v.span().end.column, 1);
            assert_eq!(yaml[v.span().start.index..v.span().end.index].trim(), "1.0");

            let keys = map.keys();
            assert_eq!(keys.len(), 2);
            let x = &keys[0];
            assert!(x.span().is_valid());
            assert_eq!(x.span().start.line, 1);
            assert_eq!(x.span().start.column, 1);
            assert_eq!(x.span().end.line, 1);
            assert_eq!(yaml[x.span().start.index..x.span().end.index].trim(), "x:");

            let y = &keys[1];
            assert!(y.span().is_valid());
            assert_eq!(y.span().start.line, 2);
            assert_eq!(y.span().start.column, 1);
            assert_eq!(y.span().end.line, 2);
            assert_eq!(yaml[y.span().start.index..y.span().end.index].trim(), "y:");
        }
        _ => panic!("expected mapping"),
    }
}

#[test]
fn test_value_span_multidoc() {
    let yaml = "---\nx: 1.0\ny: 2.0\n---\nstruc: !wat\n  x: 0\ntuple: !wat\n  - 0\n  - 0\n\
                newtype: !wat 0\nmap: !wat\n  x: 0\nvec: !wat\n  - 0\n---\n";
    let second = offset(yaml, "---", 1);
    let third = offset(yaml, "---", 2);

    // Each document is a stream of events of its own; the event behind the
    // last node of a document starts where the next document starts.
    let first_doc = vec![
        event(EventKind::MappingStart, yaml, 4, 4),
        plain(yaml, "x", 0),
        plain(yaml, "1.0", 0),
        plain(yaml, "y", 0),
        plain(yaml, "2.0", 0),
        event(EventKind::MappingEnd, yaml, second, second),
    ];

    let wat = |nth: usize| offset(yaml, "!wat", nth);
    let zero = |nth: usize| {
        let start = offset(yaml, " 0\n", nth) + 1;
        event(
            EventKind::Scalar { text: "0".to_string(), style: ScalarStyle::Plain, float: None },
            yaml,
            start,
            start + 1,
        )
    };
    let second_doc = vec![
        event(EventKind::MappingStart, yaml, second + 4, second + 4),
        plain(yaml, "struc", 0),
        tagged(event(EventKind::MappingStart, yaml, wat(0), wat(0) + 4), "!wat"),
        plain(yaml, "x", 1),
        zero(0),
        event(EventKind::MappingEnd, yaml, offset(yaml, "tuple", 0), offset(yaml, "tuple", 0)),
        plain(yaml, "tuple", 0),
        tagged(event(EventKind::SequenceStart, yaml, wat(1), wat(1) + 4), "!wat"),
        zero(1),
        zero(2),
        event(EventKind::SequenceEnd, yaml, offset(yaml, "newtype", 0), offset(yaml, "newtype", 0)),
        plain(yaml, "newtype", 0),
        tagged(zero(3), "!wat"),
        plain(yaml, "map", 0),
        tagged(event(EventKind::MappingStart, yaml, wat(3), wat(3) + 4), "!wat"),
        plain(yaml, "x", 2),
        zero(4),
        event(EventKind::MappingEnd, yaml, offset(yaml, "vec", 0), offset(yaml, "vec", 0)),
        plain(yaml, "vec", 0),
        tagged(event(EventKind::SequenceStart, yaml, wat(4), wat(4) + 4), "!wat"),
        zero(5),
        event(EventKind::SequenceEnd, yaml, third, third),
        event(EventKind::MappingEnd, yaml, third, third),
    ];
    let third_doc = vec![event(
        EventKind::Scalar { text: String::new(), style: ScalarStyle::Plain, float: None },
        yaml,
        yaml.len(),
        yaml.len(),
    )];

    let mut values = vec![];
    for document in [first_doc, second_doc, third_doc] {
        values.push(parse(&document));
    }
    assert_eq!(values.len(), 3);
    assert!(values[0].span().is_valid());
    assert!(values[1].span().is_valid());
    assert_eq!(
        yaml[values[0].span().start.index..values[0].span().end.index].trim(),
        "x: 1.0\ny: 2.0"
    );

    assert_eq!(values[1].span().start.line, 5);
    assert_eq!(values[1].span().start.column, 1);

    let struc_key_span = values[1].as_mapping().unwrap().keys()[0].span();
    assert_eq!(struc_key_span.start.line, 5);
    assert_eq!(struc_key_span.start.column, 1);
    assert_eq!(struc_key_span.end.line, 5);
    assert_eq!(struc_key_span.end.column, 8);

    let tuple_span = values[1].get("tuple").unwrap().span();
    assert_eq!(
        yaml[tuple_span.start.index..tuple_span.end.index].trim(),
        "!wat\n  - 0\n  - 0"
    );
}

fn thing_shape() -> Shape {
    Shape::record(
        "Thing",
        vec![
            field("x", Shape::Int(IntKind::I32)),
            field("y", Shape::verbatim_legacy(Shape::Int(IntKind::I32))),
            field("z", Shape::verbatim_legacy(Shape::optional(Shape::Int(IntKind::I32)))),
            field("v", Shape::verbatim_legacy(Shape::optional(Shape::Str))),
        ],
    )
}

/// The four fields of a decoded `Thing`, unwrapped.
fn thing_of(decoded: &Decoded) -> (i128, i128, Option<i128>, Option<String>) {
    let fields = decoded.as_struct().unwrap();
    (
        fields[0].as_integer().unwrap(),
        fields[1].as_verbatim_legacy().unwrap().as_integer().unwrap(),
        optional_int(fields[2].as_verbatim_legacy().unwrap()),
        fields[3]
            .as_verbatim_legacy()
            .unwrap()
            .as_optional()
            .unwrap()
            .map(|d| d.as_str().unwrap().to_string()),
    )
}

#[test]
fn test_verbatim() {
    let value = parse(&bare_mapping(&[("x", "1"), ("y", "2"), ("z", "3")]));
    let mut unused = Vec::new();
    let thing = value.into_typed(&thing_shape(), &mut unused, &Add(100)).unwrap();
    assert!(unused.is_empty(), "unexpected key {:?}", unused);
    let (x, y, z, v) = thing_of(&thing);

    assert_eq!(x, 101);
    assert_eq!(y, 2);
    assert_eq!(z, Some(3));
    assert!(v.is_none());

    let thing2 = parse(&bare_mapping(&[("x", "101"), ("y", "2"), ("z", "3")]))
        .into_typed(&thing_shape(), &mut unused, &NoTransform)
        .unwrap();
    assert_eq!((x, y, z, v), thing_of(&thing2));
}

#[test]
fn test_flatten() {
    let thing3_shape = Shape::record(
        "Thing3",
        vec![
            field("x", Shape::optional(Shape::Int(IntKind::I32))),
            field("y", Shape::verbatim_legacy(Shape::Int(IntKind::I32))),
            field(
                "__flatten__",
                Shape::map(
                    Shape::Str,
                    Shape::verbatim_legacy(Shape::optional(Shape::Int(IntKind::I32))),
                ),
            ),
        ],
    );

    let value = parse(&bare_mapping(&[("x", "1"), ("y", "2"), ("z", "3")]));
    let mut unused = Vec::new();
    let thing3 = value.into_typed(&thing3_shape, &mut unused, &NullifyIntegers).unwrap();
    assert!(unused.is_empty(), "unexpected key {:?}", unused);
    let fields = thing3.as_struct().unwrap();
    assert_eq!(optional_int(&fields[0]), None);
    assert_eq!(fields[1].as_verbatim_legacy().unwrap().as_integer(), Some(2));
    let rest = map_of(&fields[2]);
    assert_eq!(optional_int(rest["z"].as_verbatim_legacy().unwrap()), Some(3));

    let value = parse(&bare_mapping(&[("y", "2")]));
    let thing3 = value.into_typed(&thing3_shape, &mut unused, &NoTransform).unwrap();
    let fields = thing3.as_struct().unwrap();
    assert_eq!(optional_int(&fields[0]), None);
    assert_eq!(fields[1].as_verbatim_legacy().unwrap().as_integer(), Some(2));
    assert!(map_of(&fields[2]).is_empty());
}

#[test]
fn test_verbatim_flatten_nested() {
    let thing5_shape = Shape::record(
        "Thing5",
        vec![
            field("a", Shape::optional(Shape::Int(IntKind::I32))),
            field(
                "__flatten__",
                Shape::map(Shape::Str, Shape::optional(Shape::Int(IntKind::I32))),
            ),
        ],
    );
    let thing4_shape = Shape::record(
        "Thing4",
        vec![
            field("x", Shape::optional(Shape::Int(IntKind::I32))),
            field(
                "__flatten__",
                Shape::verbatim_legacy(Shape::map(Shape::Str, thing5_shape)),
            ),
        ],
    );

    let mut events = vec![bare(EventKind::MappingStart)];
    events.push(bare_scalar("x"));
    events.push(bare_scalar("1"));
    events.push(bare_scalar("z"));
    events.extend(bare_mapping(&[("a", "3"), ("b", "4")]));
    events.push(bare(EventKind::MappingEnd));
    let value = parse(&events);

    let mut unused = Vec::new();
    let thing4 = value.into_typed(&thing4_shape, &mut unused, &NullifyIntegers).unwrap();
    assert!(unused.is_empty(), "unexpected key {:?}", unused);
    let fields = thing4.as_struct().unwrap();
    assert_eq!(optional_int(&fields[0]), None);
    let flattened = map_of(fields[1].as_verbatim_legacy().unwrap());
    assert_eq!(flattened.len(), 1);
    let thing5 = flattened["z"].as_struct().unwrap();
    assert_eq!(optional_int(&thing5[0]), Some(3));
    let inner = map_of(&thing5[1]);
    assert_eq!(inner.len(), 1);
    assert_eq!(optional_int(inner["b"]), Some(4));
}

// ---------------------------------------------------------------------------
// Scalars.

#[test]
fn integer_one_equals_float_one() {
    let one = read("1");
    let one_float = read("1.0");
    assert!(one.is_number());
    assert!(!one.is_f64());
    assert!(one_float.is_f64());
    assert_eq!(one, one_float);
    assert_eq!(one_float, one);
    assert_ne!(one, read("1.5"));
    assert_ne!(read("2"), one_float);
    assert_eq!(read("-3"), read("-3.0"));
    assert_eq!(read("0"), read("-0.0"));
    assert_eq!(read("4503599627370496"), read("4503599627370496.0"));
    assert_eq!(read("18446744073709549568"), read("18446744073709549568.0"));
    assert_ne!(read("18446744073709551615"), read("18446744073709551615.0"));
    assert_ne!(read("0"), read("5e-324"));
    assert_ne!(read(".inf"), read("1"));
    assert_ne!(read(".nan"), read("0"));
    assert_eq!(read(".inf"), read("+.inf"));
    assert_ne!(read(".inf"), read("-.inf"));
}

#[test]
fn scalars_resolve_by_the_core_schema() {
    assert!(read("").is_null());
    assert!(read("~").is_null());
    assert!(read("null").is_null());
    assert!(read("Null").is_null());
    assert!(read("NULL").is_null());
    assert!(read("nULL").is_string());
    assert_eq!(read("true").as_bool(), Some(true));
    assert_eq!(read("True").as_bool(), Some(true));
    assert_eq!(read("FALSE").as_bool(), Some(false));
    assert!(read("yes").is_string());
    assert_eq!(read("42").as_u64(), Some(42));
    assert_eq!(read("+42").as_u64(), Some(42));
    assert_eq!(read("-42").as_i64(), Some(-42));
    assert_eq!(read("-0").as_i64(), Some(0));
    assert_eq!(read("0").as_u64(), Some(0));
    assert_eq!(read("0x1f").as_u64(), Some(31));
    assert_eq!(read("0X1f").as_str(), Some("0X1f"));
    assert_eq!(read("0xAbC").as_u64(), Some(0xabc));
    assert_eq!(read("-0x1f").as_i64(), Some(-31));
    assert_eq!(read("0o17").as_u64(), Some(15));
    assert_eq!(read("-0o17").as_i64(), Some(-15));
    assert_eq!(read("0b101").as_u64(), Some(5));
    assert_eq!(read("-0b101").as_i64(), Some(-5));
    assert!(read("0b102").is_string());
    assert!(read("0o8").is_string());
    assert!(read("0x+1").is_string());
    assert_eq!(read("18446744073709551615").as_u64(), Some(u64::MAX));
    assert_eq!(read("0xffffffffffffffff").as_u64(), Some(u64::MAX));
    assert!(read("0x10000000000000000").is_string());
    assert_eq!(read("-9223372036854775808").as_i64(), Some(i64::MIN));
    assert!(read("-9223372036854775809").is_f64());
    assert!(read("18446744073709551616").is_f64());
    assert!(read(".inf").is_f64());
    assert!(read("+.Inf").is_f64());
    assert!(read("-.INF").is_f64());
    assert!(read("+.nan").is_string());
    assert!(read("inf").is_string());
    assert!(read("nan").is_string());
    assert!(read("++1").is_string());
    assert!(read("+-1").is_string());
    assert!(read("-01").is_string());
    assert!(read("+007").is_string());
    assert!(read("00").is_string());
    assert!(read("0x").is_string());
    assert!(read("0.5").is_f64());
    assert!(read("1e3").is_f64());
    assert!(read("abc").is_string());
    assert_eq!(read("abc").as_str(), Some("abc"));
}

#[test]
fn a_quoted_scalar_is_a_text() {
    let quoted = bare(EventKind::Scalar {
        text: "42".to_string(),
        style: ScalarStyle::Quoted,
        float: None,
    });
    assert_eq!(parse(&vec![quoted]).as_str(), Some("42"));
    assert_eq!(parse(&vec![bare_scalar("42")]).as_u64(), Some(42));
}

/// What a scalar is read as, by the rules of the core schema written with
/// the parsing functions of the standard library.
#[derive(Debug, PartialEq)]
enum Read {
    Null,
    Bool(bool),
    Unsigned(u64),
    Signed(i64),
    Float(u64),
    Text,
}

fn digits_but_not_number(scalar: &str) -> bool {
    let scalar = scalar.strip_prefix(['-', '+']).unwrap_or(scalar);
    scalar.len() > 1 && scalar.starts_with('0') && scalar[1..].bytes().all(|b| b.is_ascii_digit())
}

fn reference_unsigned(scalar: &str) -> Option<u64> {
    let unpositive = scalar.strip_prefix('+').unwrap_or(scalar);
    for (prefix, radix) in [("0x", 16), ("0o", 8), ("0b", 2)] {
        if let Some(rest) = unpositive.strip_prefix(prefix) {
            if rest.starts_with(['+', '-']) {
                return None;
            }
            if let Ok(int) = u64::from_str_radix(rest, radix) {
                return Some(int);
            }
        }
    }
    if unpositive.starts_with(['+', '-']) {
        return None;
    }
    if digits_but_not_number(scalar) {
        return None;
    }
    u64::from_str_radix(unpositive, 10).ok()
}

fn reference_negative(scalar: &str) -> Option<i64> {
    for (prefix, radix) in [("-0x", 16), ("-0o", 8), ("-0b", 2)] {
        if let Some(rest) = scalar.strip_prefix(prefix) {
            if let Ok(int) = i64::from_str_radix(&format!("-{}", rest), radix) {
                return Some(int);
            }
        }
    }
    if digits_but_not_number(scalar) {
        return None;
    }
    i64::from_str_radix(scalar, 10).ok()
}

fn reference_float(scalar: &str) -> Option<f64> {
    let mut unpositive = scalar;
    if let Some(strip) = unpositive.strip_prefix('+') {
        unpositive = strip;
        if unpositive.starts_with(['+', '-']) {
            return None;
        }
    }
    if let ".inf" | ".Inf" | ".INF" = unpositive {
        return Some(f64::INFINITY);
    }
    if let "-.inf" | "-.Inf" | "-.INF" = scalar {
        return Some(f64::NEG_INFINITY);
    }
    if let ".nan" | ".NaN" | ".NAN" = scalar {
        return Some(f64::NAN.copysign(1.0));
    }
    match unpositive.parse::<f64>() {
        Ok(float) if float.is_finite() => Some(float),
        _ => None,
    }
}

fn reference(scalar: &str) -> Read {
    if scalar.is_empty() || matches!(scalar, "~" | "null" | "Null" | "NULL") {
        return Read::Null;
    }
    match scalar {
        "true" | "True" | "TRUE" => return Read::Bool(true),
        "false" | "False" | "FALSE" => return Read::Bool(false),
        _ => {}
    }
    if let Some(int) = reference_unsigned(scalar) {
        return Read::Unsigned(int);
    }
    if let Some(int) = reference_negative(scalar) {
        return if int >= 0 { Read::Unsigned(int as u64) } else { Read::Signed(int) };
    }
    if !digits_but_not_number(scalar) {
        if let Some(float) = reference_float(scalar) {
            return Read::Float(float.to_bits());
        }
    }
    Read::Text
}

fn observed(scalar: &str) -> Read {
    match read(scalar) {
        Value::Null(_) => Read::Null,
        Value::Bool(b, _) => Read::Bool(b),
        Value::Number(Number::Unsigned(u), _) => Read::Unsigned(u),
        Value::Number(Number::Signed(i), _) => Read::Signed(i),
        Value::Number(Number::Float(bits), _) => Read::Float(bits),
        Value::String(text, _) => {
            assert_eq!(text, scalar);
            Read::Text
        }
        other => panic!("a scalar was read as {:?}", other),
    }
}

#[test]
fn the_reading_of_scalars_agrees_with_the_standard_library() {
    let alphabet = ['+', '-', '0', '1', '7', '9', 'x', 'o', 'b', 'a', 'F', '.', 'e', '_'];
    let mut scalars = vec![String::new()];
    let mut from = 0;
    for _ in 0..4 {
        let until = scalars.len();
        for i in from..until {
            for c in alphabet {
                let mut longer = scalars[i].clone();
                longer.push(c);
                scalars.push(longer);
            }
        }
        from = until;
    }
    assert_eq!(scalars.len(), 1 + 14 + 14 * 14 + 14 * 14 * 14 + 14 * 14 * 14 * 14);
    for scalar in &scalars {
        assert_eq!(observed(scalar), reference(scalar), "for the scalar {:?}", scalar);
    }
    for scalar in [
        "18446744073709551615",
        "18446744073709551616",
        "+18446744073709551615",
        "-9223372036854775808",
        "-9223372036854775809",
        "9223372036854775808",
        "0xffffffffffffffff",
        "0x10000000000000000",
        "-0x8000000000000000",
        "-0x8000000000000001",
        "0o1777777777777777777777",
        "0o2000000000000000000000",
        "-0o1000000000000000000000",
        "0b1111111111111111111111111111111111111111111111111111111111111111",
        "0b10000000000000000000000000000000000000000000000000000000000000000",
        "-0b1000000000000000000000000000000000000000000000000000000000000000",
        "000000000000000000001",
        "1e400",
        "-1e400",
        "1e-400",
        "infinity",
        "NaN",
        ".NaN",
        "-.Inf",
        "+.INF",
        "-.NAN",
        "\u{661}\u{662}",
        "1\u{a0}",
        "tRUE",
        "Null ",
    ] {
        assert_eq!(observed(scalar), reference(scalar), "for the scalar {:?}", scalar);
    }
}
