use dbt_serde_yaml::scalar::float_candidate;
use dbt_serde_yaml::{
    get_filename, get_marker, reset_marker, set_filename, set_marker, with_filename, Decoded,
    DuplicateKey, Event, EventKind, Field, Marker, NoTransform, Number, Position, ScalarStyle,
    Shape, Span, Spanned, Value,
};
use std::collections::HashSet;
use std::hash::{Hash, Hasher};

fn float_of(text: &str) -> Option<u64> {
    float_candidate(text)
        .and_then(|candidate| candidate.parse::<f64>().ok())
        .map(f64::to_bits)
}

fn marker(yaml: &str, index: usize) -> Marker {
    let before = &yaml[..index];
    let line = before.matches('\n').count() + 1;
    let column = match before.rfind('\n') {
        Some(newline) => index - newline,
        None => index + 1,
    };
    Marker::new(index, line, column)
}

fn offset(yaml: &str, needle: &str, nth: usize) -> usize {
    let mut from = 0;
    let mut seen = 0;
    loop {
        let at = from + yaml[from..].find(needle).expect("needle occurs");
        if seen == nth {
            return at;
        }
        seen += 1;
        from = at + 1;
    }
}

fn event(kind: EventKind, yaml: &str, start: usize, end: usize) -> Event {
    Event { kind, anchor: None, tag: None, start: marker(yaml, start), end: marker(yaml, end) }
}

fn plain(yaml: &str, text: &str, nth: usize) -> Event {
    let start = offset(yaml, text, nth);
    event(
        EventKind::Scalar {
            text: text.to_string(),
            style: ScalarStyle::Plain,
            float: float_of(text),
        },
        yaml,
        start,
        start + text.len(),
    )
}

/// The events of a block mapping of plain scalars that starts at `start`
/// and is followed by the event at `end`.
fn block(yaml: &str, start: usize, end: usize, pairs: &[(&str, usize, &str, usize)]) -> Vec<Event> {
    let mut events = vec![event(EventKind::MappingStart, yaml, start, start)];
    for (key, key_nth, value, value_nth) in pairs {
        events.push(plain(yaml, key, *key_nth));
        events.push(plain(yaml, value, *value_nth));
    }
    events.push(event(EventKind::MappingEnd, yaml, end, end));
    events
}

fn parse(events: &Vec<Event>) -> Value {
    let mut position = Position::new();
    Value::from_events(events, &DuplicateKey::Error, &mut position).unwrap()
}

fn float(decoded: &Decoded) -> f64 {
    let number: Number = decoded.as_float().expect("a float");
    match number.float_bits() {
        Some(bits) => f64::from_bits(bits),
        None => number.as_i64().map(|n| n as f64).or(number.as_u64().map(|n| n as f64)).unwrap(),
    }
}

fn spanned(decoded: &Decoded) -> &Spanned<Box<Decoded>> {
    decoded.as_spanned().expect("a value with its span")
}

#[derive(PartialEq, Eq, Debug, Hash, Clone)]
struct Point {
    x: u64,
    y: u64,
}

#[derive(PartialEq, Eq, Clone)]
struct Parent {
    child: Spanned<Point>,
}

impl Hash for Parent {
    fn hash<H: Hasher>(&self, state: &mut H) {
        self.child.as_ref().hash(state);
    }
}

#[test]
fn test_spanned_test_spanned_basic() {
    let v = Spanned::new(Point { x: 10, y: 20 });
    assert_eq!(v.as_ref().x, 10);

    let mut hashset: HashSet<Parent> = HashSet::new();
    let parent = Parent { child: Spanned::new(Point { x: 10, y: 20 }) };
    hashset.insert(parent.clone());
    assert!(hashset.contains(&parent));
}

#[test]
fn test_spanned_test_spanned_de_basic() {
    let yaml = "x: 1.0\ny: 2.0\n";
    let events = block(yaml, 0, 14, &[("x", 0, "1.0", 0), ("y", 0, "2.0", 0)]);
    let mut unused = Vec::new();

    let point = Shape::record(
        "Point",
        vec![Field::new("x", Shape::Float), Field::new("y", Shape::Float)],
    );
    let decoded =
        parse(&events).into_typed(&Shape::spanned(point), &mut unused, &NoTransform).unwrap();
    let spanned_point = spanned(&decoded);
    assert!(spanned_point.has_valid_span());
    let fields = spanned_point.as_ref().as_struct().unwrap();
    assert_eq!((float(&fields[0]), float(&fields[1])), (1.0, 2.0));
    assert_eq!(spanned_point.span().start.index, 0);
    assert_eq!(spanned_point.span().start.line, 1);
    assert_eq!(spanned_point.span().start.column, 1);
    assert_eq!(spanned_point.span().end.index, 14);
    assert_eq!(spanned_point.span().end.line, 3);
    assert_eq!(spanned_point.span().end.column, 1);

    let point2 = Shape::record(
        "Point2",
        vec![
            Field::new("x", Shape::spanned(Shape::Float)),
            Field::new("y", Shape::spanned(Shape::Float)),
        ],
    );
    let decoded = parse(&events).into_typed(&point2, &mut unused, &NoTransform).unwrap();
    let fields = decoded.as_struct().unwrap();
    let (x, y) = (spanned(&fields[0]), spanned(&fields[1]));
    assert_eq!(float(x.as_ref()), 1.0);
    assert!(x.has_valid_span());
    assert!(y.has_valid_span());
    assert_eq!(x.span().start.index, 3);
    assert_eq!(float(y.as_ref()), 2.0);
    assert_eq!(y.span().start.line, 2);
    assert_eq!(y.span().start.column, 4);
    assert_eq!(y.span().end.line, 3);
    assert_eq!(y.span().end.column, 1);
    assert_eq!(yaml[x.span().start.index..x.span().end.index].trim(), "1.0");
    assert_eq!(yaml[y.span().start.index..y.span().end.index].trim(), "2.0");
}

#[test]
fn test_spanned_test_spanned_de_multidoc() {
    let yaml = "---\nx: 1.0\ny: 2.0\n---\nx: 3.0\ny: 4.0\n";
    let second = offset(yaml, "---", 1);
    let documents = vec![
        block(yaml, 4, second, &[("x", 0, "1.0", 0), ("y", 0, "2.0", 0)]),
        block(yaml, second + 4, yaml.len(), &[("x", 1, "3.0", 0), ("y", 1, "4.0", 0)]),
    ];
    let point = || {
        Shape::spanned(Shape::record(
            "Point",
            vec![
                Field::new("x", Shape::spanned(Shape::Float)),
                Field::new("y", Shape::spanned(Shape::Float)),
            ],
        ))
    };
    let mut unused = Vec::new();
    let mut points = vec![];
    for document in &documents {
        let decoded = parse(document).into_typed(&point(), &mut unused, &NoTransform).unwrap();
        assert!(spanned(&decoded).has_valid_span());
        points.push(decoded);
    }
    let coordinate = |point: &Decoded, i: usize| {
        float(spanned(&spanned(point).as_ref().as_struct().unwrap()[i]).as_ref())
    };
    assert_eq!(coordinate(&points[0], 0), 1.0);
    assert_eq!(coordinate(&points[0], 1), 2.0);
    assert_eq!(coordinate(&points[1], 0), 3.0);
    assert_eq!(coordinate(&points[1], 1), 4.0);

    let span = |point: &Decoded| *spanned(point).span();
    assert_eq!(
        yaml[span(&points[0]).start.index..span(&points[0]).end.index].trim(),
        "x: 1.0\ny: 2.0"
    );
    assert_eq!(
        yaml[span(&points[1]).start.index..span(&points[1]).end.index].trim(),
        "x: 3.0\ny: 4.0"
    );
}

#[test]
fn test_spanned_test_spanned_de_from_value() {
    let yaml = "x: 1.0\ny: 2.0\nz: 3.0\nt: null\n";
    let events = block(
        yaml,
        0,
        yaml.len(),
        &[("x", 0, "1.0", 0), ("y", 0, "2.0", 0), ("z", 0, "3.0", 0), ("t", 0, "null", 0)],
    );
    let point = Shape::record(
        "Point",
        vec![
            Field::new("x", Shape::spanned(Shape::Float)),
            Field::new("y", Shape::spanned(Shape::Any)),
            Field::new("a", Shape::spanned(Shape::optional(Shape::Float))),
            Field::new("t", Shape::spanned(Shape::Unit)),
        ],
    );

    let value = parse(&events);
    let mut unused = Vec::new();
    let decoded = value.into_typed(&Shape::spanned(point), &mut unused, &NoTransform).unwrap();
    let point = spanned(&decoded);

    assert!(point.has_valid_span());
    assert_eq!(point.span().start.line, 1);
    assert_eq!(point.span().start.column, 1);
    assert_eq!(point.span().end.line, 5);
    assert_eq!(point.span().end.column, 1);

    let fields = point.as_ref().as_struct().unwrap();
    let (x, y, a, t) =
        (spanned(&fields[0]), spanned(&fields[1]), spanned(&fields[2]), spanned(&fields[3]));
    assert_eq!(float(x.as_ref()), 1.0);
    assert!(matches!(a.as_ref().as_optional(), Some(None)));
    assert!(matches!(**t.as_ref(), Decoded::Unit));
    assert!(x.has_valid_span());
    assert!(y.has_valid_span());
    assert_eq!(x.span().start.index, 3);
    assert_eq!(
        y.as_ref().as_value(),
        Some(&Value::number(Number::from_float_bits(2.0f64.to_bits())))
    );
    assert_eq!(y.span().start.line, 2);
    assert_eq!(y.span().start.column, 4);
    assert_eq!(y.span().end.line, 3);
    assert_eq!(y.span().end.column, 1);
    assert_eq!(yaml[x.span().start.index..x.span().end.index].trim(), "1.0");
    assert_eq!(yaml[y.span().start.index..y.span().end.index].trim(), "2.0");
    assert_eq!(unused.len(), 1);
    assert_eq!(unused[0].path, "z");
}

#[test]
fn a_span_is_valid_when_it_runs_forward_between_set_markers() {
    let a = Marker::new(3, 1, 4);
    let b = Marker::new(7, 2, 1);
    assert!(Span::new(a, b).is_valid());
    assert!(Span::new(a, a).is_valid());
    assert!(!Span::new(b, a).is_valid());
    assert!(!Span::new(Marker::zero(), b).is_valid());
    assert!(!Span::new(a, Marker::new(9, 0, 1)).is_valid());
    assert!(!Span::new(a, Marker::new(9, 1, 0)).is_valid());
    assert!(!Span::zero().is_valid());
    assert!(!Span::default().is_valid());
    assert_eq!(Span::new(a, b).len(), 4);
    assert_eq!(Marker::start(), Marker::new(0, 1, 1));
    assert_eq!(Marker::default(), Marker::zero());
    assert!(a.precedes(&b));
    assert!(!b.precedes(&a));
    assert_eq!(Span::between(Some(a), None), Span::new(a, Marker::zero()));
    assert_eq!(Span::between(None, Some(b)), Span::new(Marker::zero(), b));
}

#[test]
fn the_position_is_set_read_and_reset() {
    let mut position = Position::new();
    assert_eq!(get_marker(&position), None);
    set_marker(&mut position, Marker::start());
    assert_eq!(get_marker(&position), Some(Marker::start()));
    set_marker(&mut position, Marker::new(5, 2, 3));
    assert_eq!(get_marker(&position), Some(Marker::new(5, 2, 3)));
    reset_marker(&mut position);
    assert_eq!(get_marker(&position), None);
}

#[test]
fn a_parse_resets_the_position_and_keeps_the_file_name() {
    let yaml = "x: 1.0\n";
    let mut position = Position::new();
    set_filename(&mut position, "filename.yml".to_string());
    set_marker(&mut position, Marker::new(99, 9, 9));
    let events = block(yaml, 0, yaml.len(), &[("x", 0, "1.0", 0)]);
    let value = Value::from_events(&events, &DuplicateKey::Error, &mut position).unwrap();
    assert_eq!(value.span().start, Marker::start());
    assert_eq!(get_marker(&position), None);
    assert_eq!(get_filename(&position), Some("filename.yml".to_string()));
}

#[test]
fn a_file_name_scope_restores_the_name_that_was_current() {
    let mut position = Position::new();
    assert_eq!(get_filename(&position), None);
    let outer = with_filename(&mut position, Some("filename.yml".to_string()));
    assert_eq!(get_filename(&position), Some("filename.yml".to_string()));
    {
        let inner = with_filename(&mut position, None);
        assert_eq!(get_filename(&position), None);
        inner.restore(&mut position);
    }
    assert_eq!(get_filename(&position), Some("filename.yml".to_string()));
    outer.restore(&mut position);
    assert_eq!(get_filename(&position), None);
}

#[test]
fn a_spanned_value_keeps_its_span_when_mapped() {
    let span = Span::new(Marker::new(3, 1, 4), Marker::new(7, 2, 1));
    let spanned = Spanned::with_span(20u32, span);
    assert!(spanned.has_valid_span());
    let mapped = spanned.map(|n| n + 1);
    assert_eq!(*mapped.span(), span);
    assert_eq!(mapped.into_inner(), 21);
    assert!(!Spanned::new(1).has_valid_span());
    assert!(Spanned::with_span(1, span) == Spanned::new(1));
    assert!(Spanned::new(2) != Spanned::new(1));
}

#[test]
fn markers_and_spans_are_written_by_line_and_column() {
    assert_eq!(Marker::new(3, 1, 4).to_string(), "1:4");
    assert_eq!(Marker::zero().to_string(), "0:0");
    assert_eq!(Span::new(Marker::new(3, 1, 4), Marker::new(70, 12, 1)).to_string(), "1:4..12:1");
}
