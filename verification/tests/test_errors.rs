use dbt_serde_yaml::text::{is_flatten_key, nobang, same_text, u64_to_decimal, usize_to_decimal};
use dbt_serde_yaml::{
    DuplicateKey, DuplicateKeyPolicy, Error, ErrorKind, Event, EventKind, ExternalError, Mapping,
    Marker, Number, Path, Position, ScalarStyle, Span, Unexpected, Value,
};

fn text(s: &str) -> Value {
    Value::string(s.to_string())
}

fn number(n: i64) -> Value {
    Value::number(Number::from_i64(n))
}

fn mapping(pairs: Vec<(Value, Value)>) -> Value {
    let mut m = Mapping::new();
    for (k, v) in pairs {
        m.insert(k, v);
    }
    Value::mapping(m)
}

fn record(pairs: Vec<(&str, Value)>) -> Value {
    mapping(pairs.into_iter().map(|(k, v)| (text(k), v)).collect())
}

fn at(index: usize) -> Marker {
    Marker::new(index, 1, index + 1)
}

fn bare(kind: EventKind, index: usize) -> Event {
    Event { kind, anchor: None, tag: None, start: at(index), end: at(index + 1) }
}

fn scalar(text: &str, index: usize) -> Event {
    bare(
        EventKind::Scalar { text: text.to_string(), style: ScalarStyle::Plain, float: None },
        index,
    )
}

fn parse<P: DuplicateKeyPolicy>(events: &Vec<Event>, policy: &P) -> Result<Value, Error> {
    let mut position = Position::new();
    Value::from_events(events, policy, &mut position)
}

#[test]
fn paths_are_written_as_diagnostics_show_them() {
    let root = Path::Root;
    assert_eq!(root.to_string(), ".");
    let a = Path::Mapping { parent: &root, key: "a" };
    assert_eq!(a.to_string(), "a");
    let b = Path::Mapping { parent: &a, key: "b" };
    assert_eq!(b.to_string(), "a.b");
    let second = Path::Sequence { parent: &b, index: 2 };
    assert_eq!(second.to_string(), "a.b[2]");
    let c = Path::Mapping { parent: &second, key: "c" };
    assert_eq!(c.to_string(), "a.b[2].c");
    let unknown = Path::Unknown { parent: &c };
    assert_eq!(unknown.to_string(), "a.b[2].c.?");
    assert_eq!(Path::Unknown { parent: &root }.to_string(), "?");
    assert_eq!(Path::Alias { parent: &c }.to_string(), "a.b[2].c");
    assert_eq!(Path::Alias { parent: &root }.to_string(), ".");
    assert_eq!(Path::Sequence { parent: &root, index: 0 }.to_string(), ".[0]");
    let big = Path::Sequence { parent: &a, index: 1234567890 };
    assert_eq!(big.to_string(), "a[1234567890]");
}

#[test]
fn numerals_are_written_in_decimal() {
    assert_eq!(u64_to_decimal(0), "0");
    assert_eq!(u64_to_decimal(7), "7");
    assert_eq!(u64_to_decimal(10), "10");
    assert_eq!(u64_to_decimal(1090), "1090");
    assert_eq!(u64_to_decimal(u64::MAX), "18446744073709551615");
    assert_eq!(usize_to_decimal(42), "42");
}

#[test]
fn the_names_of_catch_all_fields() {
    assert!(is_flatten_key("__flatten__"));
    assert!(is_flatten_key("__x__"));
    assert!(!is_flatten_key("____"));
    assert!(!is_flatten_key("___"));
    assert!(is_flatten_key("_____"));
    assert!(!is_flatten_key("__x_"));
    assert!(!is_flatten_key("_x__"));
    assert!(!is_flatten_key("x__x__"));
    assert!(!is_flatten_key(""));
    assert!(!is_flatten_key("flatten"));
}

#[test]
fn tags_lose_their_leading_sigil() {
    assert_eq!(nobang("!tag"), "tag");
    assert_eq!(nobang("tag"), "tag");
    assert_eq!(nobang("!"), "!");
    assert_eq!(nobang(""), "");
    assert_eq!(nobang("!!str"), "!str");
    assert!(same_text("a", "a"));
    assert!(!same_text("a", "b"));
    assert_eq!(
        Value::tagged("!t".to_string(), number(1)),
        Value::tagged("t".to_string(), number(1))
    );
    assert_ne!(
        Value::tagged("!t".to_string(), number(1)),
        Value::tagged("u".to_string(), number(1))
    );
    assert_ne!(Value::tagged("!t".to_string(), number(1)), number(1));
}

#[test]
fn each_kind_of_error_has_its_message() {
    let message = |kind: ErrorKind| Error::new(kind, Span::zero()).to_string();
    let expected = || "i32".to_string();
    assert_eq!(
        message(ErrorKind::InvalidType { unexpected: Unexpected::Bool(true), expected: expected() }),
        "invalid type: boolean `true`, expected i32"
    );
    assert_eq!(
        message(ErrorKind::InvalidType { unexpected: Unexpected::Unsigned(u64::MAX), expected: expected() }),
        "invalid type: integer `18446744073709551615`, expected i32"
    );
    assert_eq!(
        message(ErrorKind::InvalidValue { unexpected: Unexpected::Signed(-300), expected: "i8".to_string() }),
        "invalid value: integer `-300`, expected i8"
    );
    assert_eq!(Unexpected::Signed(i64::MIN).describe(), "integer `-9223372036854775808`");
    assert_eq!(Unexpected::Signed(0).describe(), "integer `0`");
    assert_eq!(Unexpected::Bool(false).describe(), "boolean `false`");
    assert_eq!(
        message(ErrorKind::InvalidType { unexpected: Unexpected::Float(0), expected: expected() }),
        "invalid type: floating point number, expected i32"
    );
    assert_eq!(
        message(ErrorKind::InvalidType { unexpected: Unexpected::Str("it's \"x\"\t".to_string()), expected: expected() }),
        "invalid type: string \"it's \\\"x\\\"\\t\", expected i32"
    );
    for (unexpected, words) in [
        (Unexpected::Unit, "unit value"),
        (Unexpected::Sequence, "sequence"),
        (Unexpected::Mapping, "map"),
        (Unexpected::Enum, "enum"),
        (Unexpected::UnitVariant, "unit variant"),
    ] {
        assert_eq!(unexpected.describe(), words);
        assert_eq!(
            message(ErrorKind::InvalidType { unexpected, expected: expected() }),
            format!("invalid type: {}, expected i32", words)
        );
    }
    assert_eq!(
        message(ErrorKind::InvalidLength { len: 3, expected: "a tuple of size 2".to_string() }),
        "invalid length 3, expected a tuple of size 2"
    );
    assert_eq!(message(ErrorKind::MissingField("name".to_string())), "missing field `name`");
    assert_eq!(message(ErrorKind::DuplicateField("name".to_string())), "duplicate field `name`");
    assert_eq!(
        message(ErrorKind::UnknownVariant {
            variant: "v".to_string(),
            known: vec!["a".to_string(), "b".to_string(), "c".to_string()]
        }),
        "unknown variant `v`, expected one of `a`, `b`, `c`"
    );
    assert_eq!(
        message(ErrorKind::DuplicateKey("a.b".to_string())),
        "duplicate entry with key `a.b`"
    );
    assert_eq!(
        message(ErrorKind::ScalarInMerge),
        "expected a mapping or list of mappings for merging, but found scalar"
    );
    assert_eq!(message(ErrorKind::TaggedInMerge), "unexpected tagged value in merge");
    assert_eq!(
        message(ErrorKind::ScalarInMergeElement),
        "expected a mapping for merging, but found scalar"
    );
    assert_eq!(
        message(ErrorKind::SequenceInMergeElement),
        "expected a mapping for merging, but found sequence"
    );
    assert_eq!(message(ErrorKind::Custom("in words".to_string())), "in words");
    assert_eq!(
        message(ErrorKind::External(ExternalError { message: "from outside".to_string() })),
        "from outside"
    );

    let located = Error::new(
        ErrorKind::MissingField("f".to_string()),
        Span::new(Marker::new(100, 12, 34), Marker::new(101, 12, 35)),
    );
    assert_eq!(located.to_string(), "missing field `f` at line 12 column 34");
    assert_eq!(located.kind.message(), "missing field `f`");
    assert_eq!(located.duplicate().to_string(), located.to_string());
    let backwards = Error::new(
        ErrorKind::MissingField("f".to_string()),
        Span::new(Marker::new(101, 12, 35), Marker::new(100, 12, 34)),
    );
    assert_eq!(backwards.to_string(), "missing field `f`");
    assert_eq!(
        Error::external(ExternalError { message: "m".to_string() }, Span::zero()).to_string(),
        "m"
    );
}

#[test]
fn a_merge_key_takes_over_the_entries_of_its_sources() {
    let center = record(vec![("x", number(1)), ("y", number(2))]);
    let big = record(vec![("r", number(10))]);
    let mut value = record(vec![
        ("<<", Value::sequence(vec![center.duplicate(), big.duplicate()])),
        ("label", text("v")),
    ]);
    value.apply_merge().unwrap();
    let expected = record(vec![
        ("x", number(1)),
        ("y", number(2)),
        ("r", number(10)),
        ("label", text("v")),
    ]);
    assert_eq!(value, expected);
    // The explicit entries stand first and in their order, the merged ones
    // behind them in the order of the sources.
    let keys = value.as_mapping().unwrap().keys();
    assert_eq!(keys, vec![text("label"), text("x"), text("y"), text("r")]);

    // An explicit key wins over a merged one, an earlier source over a later.
    let mut value = record(vec![
        ("x", text("mine")),
        (
            "<<",
            Value::sequence(vec![
                record(vec![("x", number(1)), ("r", number(1))]),
                record(vec![("r", number(2)), ("s", number(3))]),
            ]),
        ),
    ]);
    value.apply_merge().unwrap();
    assert_eq!(
        value,
        record(vec![("x", text("mine")), ("r", number(1)), ("s", number(3))])
    );

    // Merge keys are resolved at every depth, the deepest first.
    let mut value = Value::sequence(vec![record(vec![(
        "outer",
        record(vec![
            ("<<", record(vec![("<<", record(vec![("a", number(1))])), ("b", number(2))])),
            ("c", number(3)),
        ]),
    )])]);
    value.apply_merge().unwrap();
    assert_eq!(
        value,
        Value::sequence(vec![record(vec![(
            "outer",
            record(vec![("c", number(3)), ("b", number(2)), ("a", number(1))])
        )])])
    );

    // A tree without merge keys stays as it is.
    let mut plain = record(vec![("a", Value::sequence(vec![number(1)]))]);
    plain.apply_merge().unwrap();
    assert_eq!(plain, record(vec![("a", Value::sequence(vec![number(1)]))]));
}

#[test]
fn what_stands_under_a_merge_key_has_to_be_a_mapping() {
    let failure = |under: Value| {
        let mut value = record(vec![("<<", under), ("k", number(1))]);
        let before = value.duplicate();
        let message = value.apply_merge().unwrap_err().to_string();
        assert_eq!(value, before);
        message
    };
    assert_eq!(
        failure(number(1)),
        "expected a mapping or list of mappings for merging, but found scalar"
    );
    assert_eq!(
        failure(Value::tagged("!t".to_string(), record(vec![]))),
        "unexpected tagged value in merge"
    );
    assert_eq!(
        failure(Value::sequence(vec![record(vec![]), text("s")])),
        "expected a mapping for merging, but found scalar"
    );
    assert_eq!(
        failure(Value::sequence(vec![Value::sequence(vec![])])),
        "expected a mapping for merging, but found sequence"
    );
    assert_eq!(
        failure(Value::sequence(vec![Value::tagged("!t".to_string(), record(vec![]))])),
        "unexpected tagged value in merge"
    );
}

fn repeated_key() -> Vec<Event> {
    vec![
        bare(EventKind::MappingStart, 0),
        scalar("outer", 1),
        bare(EventKind::MappingStart, 2),
        scalar("k", 3),
        scalar("1", 4),
        scalar("other", 5),
        scalar("2", 6),
        scalar("k", 7),
        scalar("3", 8),
        bare(EventKind::MappingEnd, 9),
        bare(EventKind::MappingEnd, 10),
    ]
}

#[test]
fn a_repeated_key_is_treated_as_the_policy_decides() {
    let err = parse(&repeated_key(), &DuplicateKey::Error).unwrap_err();
    assert!(matches!(err.kind, ErrorKind::DuplicateKey(_)));
    assert_eq!(err.to_string(), "duplicate entry with key `outer.k` at line 1 column 8");

    let last = parse(&repeated_key(), &DuplicateKey::Last).unwrap();
    assert_eq!(
        last,
        record(vec![("outer", record(vec![("k", number(3)), ("other", number(2))]))])
    );
    let inner = last.as_mapping().unwrap().get(&text("outer")).unwrap().as_mapping().unwrap();
    assert_eq!(inner.keys(), vec![text("k"), text("other")]);

    let first = parse(&repeated_key(), &DuplicateKey::First).unwrap();
    assert_eq!(
        first,
        record(vec![("outer", record(vec![("k", number(1)), ("other", number(2))]))])
    );

    /// Keeps the greater of two numbers, and fails on anything else.
    struct KeepGreater;
    impl DuplicateKeyPolicy for KeepGreater {
        fn decide(&self, path: &Path<'_>, existing: &Value, incoming: &Value) -> DuplicateKey {
            assert_eq!(path.to_string(), "outer.k");
            match (existing.as_i64(), incoming.as_i64()) {
                (Some(a), Some(b)) if b > a => DuplicateKey::Last,
                (Some(_), Some(_)) => DuplicateKey::First,
                _ => DuplicateKey::Error,
            }
        }
    }
    assert_eq!(parse(&repeated_key(), &KeepGreater).unwrap(), last);
}

#[test]
fn a_stream_of_events_has_to_be_one_whole_document() {
    let message = |events: Vec<Event>| parse(&events, &DuplicateKey::Error).unwrap_err().to_string();
    assert_eq!(message(vec![]), "unexpected end of events at line 1 column 1");
    assert_eq!(
        message(vec![bare(EventKind::SequenceStart, 0), scalar("a", 1)]),
        "unexpected end of events at line 1 column 3"
    );
    assert_eq!(
        message(vec![bare(EventKind::MappingStart, 0), scalar("a", 1)]),
        "unexpected end of events at line 1 column 3"
    );
    assert_eq!(
        message(vec![bare(EventKind::SequenceEnd, 0)]),
        "unexpected end of a collection at line 1 column 1"
    );
    assert_eq!(
        message(vec![bare(EventKind::MappingStart, 0), scalar("a", 1), bare(EventKind::MappingEnd, 2)]),
        "unexpected end of a collection at line 1 column 3"
    );
    assert_eq!(
        message(vec![scalar("a", 0), scalar("b", 1)]),
        "more than one document at line 1 column 2"
    );
    assert_eq!(
        message(vec![bare(EventKind::Alias { name: "nowhere".to_string() }, 0)]),
        "unknown anchor at line 1 column 1"
    );
}

#[test]
fn an_alias_stands_for_the_latest_node_with_its_anchor() {
    let anchored = |text: &str, index: usize| {
        let mut event = scalar(text, index);
        event.anchor = Some("A".to_string());
        event
    };
    let events = vec![
        bare(EventKind::SequenceStart, 0),
        anchored("first", 1),
        bare(EventKind::Alias { name: "A".to_string() }, 2),
        anchored("second", 3),
        bare(EventKind::Alias { name: "A".to_string() }, 4),
        bare(EventKind::SequenceEnd, 5),
    ];
    let value = parse(&events, &DuplicateKey::Error).unwrap();
    assert_eq!(
        value,
        Value::sequence(vec![text("first"), text("first"), text("second"), text("second")])
    );
    // An alias carries the span of the node that it stands for.
    let items = value.as_sequence().unwrap();
    assert_eq!(items[1].span(), items[0].span());
    assert_eq!(items[0].span(), Span::new(at(1), at(2)));
    assert_eq!(items[3].span(), Span::new(at(3), at(4)));
    assert_eq!(value.span(), Span::new(at(0), at(6)));
}

#[test]
fn a_tag_wraps_the_node_that_it_annotates() {
    let mut event = scalar("7", 0);
    event.tag = Some("!wat".to_string());
    let value = parse(&vec![event], &DuplicateKey::Error).unwrap();
    assert_eq!(value, Value::tagged("!wat".to_string(), number(7)));
    assert_eq!(value.untag_ref(), &number(7));
    assert_eq!(value.span(), Span::new(at(0), at(1)));
    assert_eq!(value.untag_ref().span(), value.span());
}

#[test]
fn mappings_keep_their_order_and_hold_each_key_once() {
    let mut m = Mapping::new();
    assert!(m.is_empty());
    assert_eq!(m.insert(text("b"), number(1)), None);
    assert_eq!(m.insert(text("a"), number(2)), None);
    assert_eq!(m.insert(number(1), number(3)), None);
    // A key is found by what it denotes, not by how it is held.
    let one_as_float = Value::number(Number::from_float_bits(1.0f64.to_bits()));
    assert_eq!(m.insert(one_as_float.duplicate(), number(4)), Some(number(3)));
    assert_eq!(m.insert(text("b"), number(5)), Some(number(1)));
    assert_eq!(m.len(), 3);
    assert_eq!(m.keys(), vec![text("b"), text("a"), number(1)]);
    assert_eq!(m.get(&text("b")), Some(&number(5)));
    assert_eq!(m.get(&one_as_float), Some(&number(4)));
    assert_eq!(m.get(&text("c")), None);
    assert!(m.contains_key(&text("a")));
    assert!(!m.contains_key(&text("c")));
    assert_eq!(m.index_of(&text("a")), Some(1));
    assert_eq!(m.key_at(2), &number(1));
    assert_eq!(m.value_at(0), &number(5));
    assert_eq!(m.remove(&text("b")), Some(number(5)));
    assert_eq!(m.remove(&text("b")), None);
    assert_eq!(m.keys(), vec![text("a"), number(1)]);

    let collected = Mapping::from_entries(vec![
        (text("k"), number(1)),
        (text("l"), number(2)),
        (text("k"), number(3)),
    ]);
    assert_eq!(collected.keys(), vec![text("k"), text("l")]);
    assert_eq!(collected.get(&text("k")), Some(&number(3)));

    // Mappings are equal whatever the order of their entries.
    let mut forward = Mapping::new();
    forward.insert(text("x"), number(1));
    forward.insert(text("y"), number(2));
    let mut backward = Mapping::new();
    backward.insert(text("y"), number(2));
    backward.insert(text("x"), number(1));
    assert_eq!(forward, backward);
    backward.insert(text("z"), number(3));
    assert_ne!(forward, backward);
    assert_eq!(forward.duplicate(), forward);
}

#[test]
fn values_compare_without_their_spans() {
    let span = Span::new(at(3), at(9));
    let value = record(vec![("a", Value::sequence(vec![number(1), Value::null(), Value::bool(true)]))]);
    let mut spanned_entries = Mapping::new();
    spanned_entries.insert(
        text("a").with_span(span),
        Value::sequence(vec![number(1).with_span(span), Value::null(), Value::bool(true)])
            .with_span(span),
    );
    let spanned = Value::mapping(spanned_entries).with_span(span);
    assert_eq!(value, spanned);
    assert_eq!(spanned.span(), span);
    assert_eq!(value.span(), Span::zero());
    assert_eq!(value.duplicate(), value);
    assert_eq!(spanned.duplicate().span(), span);
    assert_ne!(value, record(vec![("a", Value::sequence(vec![number(1), Value::null()]))]));
    assert_ne!(Value::null(), Value::bool(false));
    assert_ne!(text("1"), number(1));

    assert!(value.is_mapping());
    assert!(!value.is_sequence());
    assert!(Value::sequence(vec![]).is_sequence());
    assert!(Value::null().is_null());
    assert!(Value::bool(true).is_bool());
    assert!(number(1).is_number());
    assert!(text("t").is_string());
    assert_eq!(number(-1).as_i64(), Some(-1));
    assert_eq!(number(-1).as_u64(), None);
    assert_eq!(Value::number(Number::from_u64(u64::MAX)).as_i64(), None);
    assert_eq!(text("t").as_i64(), None);
    assert_eq!(text("t").as_bool(), None);
    assert_eq!(text("t").as_sequence(), None);
    assert!(text("t").as_mapping().is_none());
}

#[test]
fn numbers_say_how_they_are_held() {
    let nan = Number::from_float_bits(f64::NAN.to_bits());
    let infinity = Number::from_float_bits(f64::INFINITY.to_bits());
    let half = Number::from_float_bits(0.5f64.to_bits());
    assert!(nan.is_nan() && !nan.is_finite() && !nan.is_infinite());
    assert!(infinity.is_infinite() && !infinity.is_finite() && !infinity.is_nan());
    assert!(half.is_finite() && half.is_f64());
    assert!(Number::from_u64(1).is_finite());
    assert!(!Number::from_u64(1).is_f64());
    assert!(Number::from_u64(1).is_u64() && Number::from_u64(1).is_i64());
    assert!(!Number::from_u64(u64::MAX).is_i64());
    assert!(Number::from_i64(-1).is_i64() && !Number::from_i64(-1).is_u64());
    assert!(!half.is_i64() && !half.is_u64());
    assert_eq!(half.float_bits(), Some(0.5f64.to_bits()));
    assert_eq!(Number::from_u64(1).float_bits(), None);
    assert_eq!(Number::from_i64(5), Number::from_u64(5));
    assert_ne!(Number::from_i64(-5), Number::from_u64(5));
    assert_eq!(Number::from_i64(-5), Number::from_float_bits((-5.0f64).to_bits()));
    assert_ne!(half, Number::from_u64(0));
    assert_ne!(nan, infinity);
    assert_eq!(nan, Number::from_float_bits((-f64::NAN).to_bits()));
    assert_eq!(
        Number::from_float_bits(9007199254740992.0f64.to_bits()),
        Number::from_u64(9007199254740992)
    );
    assert_eq!(
        Number::from_float_bits((-9223372036854775808.0f64).to_bits()),
        Number::from_i64(i64::MIN)
    );
    assert_ne!(Number::from_float_bits(1e300f64.to_bits()), Number::from_u64(u64::MAX));
}

/// Whether an integer equals a float, by the arithmetic of the processor.
fn reference_equal(n: i128, f: f64) -> bool {
    f.is_finite() && f == f.trunc() && f.abs() < 3.5e38 && f as i128 == n
}

fn integer_number(n: i128) -> Option<Number> {
    if n < 0 {
        i64::try_from(n).ok().map(Number::from_i64)
    } else {
        u64::try_from(n).ok().map(Number::from_u64)
    }
}

#[test]
fn integers_and_floats_compare_as_the_processor_computes() {
    let mut floats: Vec<f64> = vec![0.0, -0.0, 0.5, -0.5, 1.5, f64::MIN_POSITIVE, 5e-324];
    for exponent in 0..70 {
        let power = 2.0f64.powi(exponent);
        for sign in [1.0, -1.0] {
            for factor in [1.0, 1.5, 1.25, 1.0 + f64::EPSILON, 2.0 - f64::EPSILON] {
                floats.push(sign * power * factor);
                floats.push(sign * power * factor + 1.0);
                floats.push(sign * power * factor - 1.0);
                floats.push(sign * power * factor + 0.5);
            }
        }
    }
    // A stream of bit patterns of every kind.
    let mut state: u64 = 0x9e37_79b9_7f4a_7c15;
    for _ in 0..20_000 {
        state = state.wrapping_mul(6364136223846793005).wrapping_add(1442695040888963407);
        floats.push(f64::from_bits(state));
        // The same sign and fraction with an exponent near the integers.
        let exponent = 1023 + (state >> 58);
        floats.push(f64::from_bits((state & 0x800f_ffff_ffff_ffff) | (exponent << 52)));
    }
    let mut compared = 0;
    for f in floats {
        let float = Number::from_float_bits(f.to_bits());
        let mut integers: Vec<i128> = vec![0, 1, -1, i64::MIN as i128, u64::MAX as i128];
        if f.is_finite() && f.abs() < 3.0e38 {
            let near = f as i128;
            integers.extend([near - 1, near, near + 1]);
        }
        for n in integers {
            if let Some(integer) = integer_number(n) {
                assert_eq!(integer == float, reference_equal(n, f), "{} and {:e}", n, f);
                assert_eq!(float == integer, reference_equal(n, f), "{:e} and {}", f, n);
                compared += 1;
            }
        }
        assert_eq!(float == float, true);
        let other = Number::from_float_bits((-f).to_bits());
        assert_eq!(float == other, f.is_nan() || f == -f, "{:e} and its negative", f);
    }
    assert!(compared > 100_000);
}
