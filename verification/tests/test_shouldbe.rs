use dbt_serde_yaml::{
    Decoded, DuplicateKey, Error, Event, EventKind, Field, IntKind, Mapping, Marker, NoTransform,
    Number, Position, ScalarStyle, Shape, ShouldBe, Value, WhyNot,
};

fn marker(yaml: &str, index: usize) -> Marker {
    let before = &yaml[..index];
    let line = before.matches('\n').count() + 1;
    let column = match before.rfind('\n') {
        Some(newline) => index - newline,
        None => index + 1,
    };
    Marker::new(index, line, column)
}

fn offset(yaml: &str, needle: &str, nth: usize) -> usize {
    let mut from = 0;
    let mut seen = 0;
    loop {
        let at = from + yaml[from..].find(needle).expect("needle occurs");
        if seen == nth {
            return at;
        }
        seen += 1;
        from = at + 1;
    }
}

fn event(kind: EventKind, yaml: &str, start: usize, end: usize) -> Event {
    Event { kind, anchor: None, tag: None, start: marker(yaml, start), end: marker(yaml, end) }
}

fn scalar(yaml: &str, written: &str, nth: usize, text: &str, style: ScalarStyle) -> Event {
    let start = offset(yaml, written, nth);
    event(
        EventKind::Scalar { text: text.to_string(), style, float: None },
        yaml,
        start,
        start + written.len(),
    )
}

fn plain(yaml: &str, text: &str, nth: usize) -> Event {
    scalar(yaml, text, nth, text, ScalarStyle::Plain)
}

fn text(s: &str) -> Value {
    Value::string(s.to_string())
}

#[test]
fn test_shouldbe() {
    let valid: ShouldBe<i32> = ShouldBe::AndIs(42);
    let invalid: ShouldBe<i32> = ShouldBe::ButIsnt {
        raw: Some(Value::number(Number::from_i64(0))),
        why_not: WhyNot::Original(Error::custom("Expected a number".to_string())),
    };

    assert!(valid.is());
    assert!(invalid.isnt());

    assert_eq!(valid.as_ref(), Some(&42));
    assert_eq!(invalid.as_ref(), None);
    assert_eq!(invalid.as_ref_raw(), Some(&Value::number(Number::from_i64(0))));
    assert_eq!(invalid.as_ref_err().unwrap().to_string(), "Expected a number");
}

#[test]
fn test_deserialize_value() {
    let yaml = r#"
        valid: 
          x: 42
        invalid: 
          x: "Expected a number"
    "#;

    let inner = || Shape::record("Inner", vec![Field::new("x", Shape::Int(IntKind::I32))]);
    let outer = Shape::record(
        "Outer",
        vec![
            Field::new("valid", Shape::should_be(inner())),
            Field::new("invalid", Shape::should_be(inner())),
        ],
    );

    let first_x = offset(yaml, "x:", 0);
    let second_x = offset(yaml, "x:", 1);
    let events = vec![
        event(EventKind::MappingStart, yaml, offset(yaml, "valid", 0), offset(yaml, "valid", 0)),
        plain(yaml, "valid", 0),
        event(EventKind::MappingStart, yaml, first_x, first_x),
        plain(yaml, "x", 0),
        plain(yaml, "42", 0),
        event(EventKind::MappingEnd, yaml, offset(yaml, "invalid", 0), offset(yaml, "invalid", 0)),
        plain(yaml, "invalid", 0),
        event(EventKind::MappingStart, yaml, second_x, second_x),
        plain(yaml, "x", 1),
        scalar(yaml, "\"Expected a number\"", 0, "Expected a number", ScalarStyle::Quoted),
        event(EventKind::MappingEnd, yaml, yaml.len(), yaml.len()),
        event(EventKind::MappingEnd, yaml, yaml.len(), yaml.len()),
    ];
    let mut position = Position::new();
    let value = Value::from_events(&events, &DuplicateKey::Error, &mut position).unwrap();

    let mut unused = Vec::new();
    let thing = value.into_typed(&Shape::should_be(outer), &mut unused, &NoTransform).unwrap();
    assert!(unused.is_empty(), "Unused key in deserialization");
    let thing = match thing {
        Decoded::ShouldBe(thing) => thing,
        _ => panic!("expected a container"),
    };

    assert!(thing.is());
    let thing = thing.into_inner().unwrap();
    let fields = thing.as_struct().unwrap();
    let valid = fields[0].as_should_be().unwrap();
    let invalid = fields[1].as_should_be().unwrap();
    assert!(valid.is());
    assert_eq!(valid.as_ref().unwrap().as_struct().unwrap()[0].as_integer(), Some(42));
    assert!(invalid.isnt());
    let mut expected = Mapping::new();
    expected.insert(text("x"), text("Expected a number"));
    assert_eq!(invalid.as_ref_raw().unwrap(), &Value::mapping(expected));
    assert_eq!(
        invalid.as_ref_err().unwrap().to_string(),
        "invalid type: string \"Expected a number\", expected i32 at line 5 column 14"
    );
}

#[test]
fn a_container_gives_up_what_it_holds() {
    let mut valid: ShouldBe<i32> = ShouldBe::AndIs(1);
    *valid.as_ref_mut().unwrap() = 2;
    assert_eq!(valid.as_ref(), Some(&2));
    assert_eq!(valid.take_raw(), None);
    assert!(valid.as_ref_err().is_none());
    assert_eq!(valid.into_inner(), Some(2));

    let mut invalid: ShouldBe<i32> = ShouldBe::ButIsnt {
        raw: Some(text("two")),
        why_not: WhyNot::Custom("not a number".to_string()),
    };
    assert!(invalid.as_ref_mut().is_none());
    assert!(invalid.as_ref_err().is_none());
    assert_eq!(invalid.take_raw(), Some(text("two")));
    assert_eq!(invalid.as_ref_raw(), None);
    assert_eq!(invalid.unwrap_err().to_string(), "not a number");

    let invalid: ShouldBe<i32> = ShouldBe::ButIsnt {
        raw: Some(text("two")),
        why_not: WhyNot::Original(Error::custom("bad".to_string())),
    };
    assert_eq!(invalid.into_raw(), Some(text("two")));

    let ok: Result<i32, Error> = ShouldBe::AndIs(5).into_result();
    assert_eq!(ok.unwrap(), 5);
    let failed: Result<i32, Error> = ShouldBe::ButIsnt {
        raw: None,
        why_not: WhyNot::Custom("why".to_string()),
    }
    .into_result();
    assert_eq!(failed.unwrap_err().to_string(), "why");
}

#[test]
fn containers_compare_by_what_they_hold() {
    let a: ShouldBe<i32> = ShouldBe::AndIs(1);
    let b: ShouldBe<i32> = ShouldBe::AndIs(1);
    let c: ShouldBe<i32> = ShouldBe::AndIs(2);
    assert!(a == b);
    assert!(a != c);
    let x: ShouldBe<i32> = ShouldBe::ButIsnt {
        raw: Some(text("t")),
        why_not: WhyNot::Custom("one reason".to_string()),
    };
    let y: ShouldBe<i32> = ShouldBe::ButIsnt {
        raw: Some(text("t")),
        why_not: WhyNot::Custom("another reason".to_string()),
    };
    let z: ShouldBe<i32> =
        ShouldBe::ButIsnt { raw: None, why_not: WhyNot::Custom("one reason".to_string()) };
    assert!(x == y);
    assert!(x != z);
    assert!(x != a);
}
