//! Descriptions of the types that a document can be decoded into.

use crate::text::{decimal, spec_is_flatten_key, usize_to_decimal};
use vstd::prelude::*;
use vstd::string::*;

verus! {

/// The integer types that a number can be decoded into.
#[derive(Clone, Copy, Debug, PartialEq, Eq, Structural)]
pub enum IntKind {
    I8,
    I16,
    I32,
    I64,
    U8,
    U16,
    U32,
    U64,
}

impl IntKind {
    /// The least value of the type.
    pub open spec fn spec_min(self) -> int {
        match self {
            IntKind::I8 => -0x80,
            IntKind::I16 => -0x8000,
            IntKind::I32 => -0x8000_0000,
            IntKind::I64 => -0x8000_0000_0000_0000,
            _ => 0,
        }
    }

    /// The greatest value of the type.
    pub open spec fn spec_max(self) -> int {
        match self {
            IntKind::I8 => 0x7f,
            IntKind::I16 => 0x7fff,
            IntKind::I32 => 0x7fff_ffff,
            IntKind::I64 => 0x7fff_ffff_ffff_ffff,
            IntKind::U8 => 0xff,
            IntKind::U16 => 0xffff,
            IntKind::U32 => 0xffff_ffff,
            IntKind::U64 => 0xffff_ffff_ffff_ffff,
        }
    }

    /// True for the types that can hold a negative number.
    pub open spec fn spec_is_signed(self) -> bool {
        self is I8 || self is I16 || self is I32 || self is I64
    }

    /// The name of the type, as messages give it.
    pub open spec fn spec_name(self) -> Seq<char> {
        match self {
            IntKind::I8 => "i8"@,
            IntKind::I16 => "i16"@,
            IntKind::I32 => "i32"@,
            IntKind::I64 => "i64"@,
            IntKind::U8 => "u8"@,
            IntKind::U16 => "u16"@,
            IntKind::U32 => "u32"@,
            IntKind::U64 => "u64"@,
        }
    }

    /// The least value of the type.
    pub fn min(self) -> (r: i64)
        ensures
            r == self.spec_min(),
    {
        match self {
            IntKind::I8 => -0x80,
            IntKind::I16 => -0x8000,
            IntKind::I32 => -0x8000_0000,
            IntKind::I64 => i64::MIN,
            _ => 0,
        }
    }

    /// The greatest value of the type.
    pub fn max(self) -> (r: u64)
        ensures
            r == self.spec_max(),
    {
        match self {
            IntKind::I8 => 0x7f,
            IntKind::I16 => 0x7fff,
            IntKind::I32 => 0x7fff_ffff,
            IntKind::I64 => 0x7fff_ffff_ffff_ffff,
            IntKind::U8 => 0xff,
            IntKind::U16 => 0xffff,
            IntKind::U32 => 0xffff_ffff,
            IntKind::U64 => 0xffff_ffff_ffff_ffff,
        }
    }

    /// True for the types that can hold a negative number.
    pub fn is_signed(self) -> (b: bool)
        ensures
            b == self.spec_is_signed(),
    {
        match self {
            IntKind::I8 | IntKind::I16 | IntKind::I32 | IntKind::I64 => true,
            _ => false,
        }
    }

    /// The name of the type, as messages give it.
    pub fn name(self) -> (r: String)
        ensures
            r@ == self.spec_name(),
    {
        match self {
            IntKind::I8 => String::from_str("i8"),
            IntKind::I16 => String::from_str("i16"),
            IntKind::I32 => String::from_str("i32"),
            IntKind::I64 => String::from_str("i64"),
            IntKind::U8 => String::from_str("u8"),
            IntKind::U16 => String::from_str("u16"),
            IntKind::U32 => String::from_str("u32"),
            IntKind::U64 => String::from_str("u64"),
        }
    }
}

/// A named field of a struct. A field whose name is longer than four
/// characters and both starts and ends with two underscores is a catch-all
/// field: it receives the entries that no other field takes.
#[derive(Debug)]
pub struct Field {
    /// The key under which the field stands in a mapping.
    pub name: String,
    /// What the field holds.
    pub shape: Shape,
}

/// A struct: a name and its fields, in the order of declaration.
#[derive(Debug)]
pub struct StructShape {
    pub name: String,
    pub fields: Vec<Field>,
}

/// A map: what its keys and its values hold.
#[derive(Debug)]
pub struct MapShape {
    pub key: Shape,
    pub value: Shape,
}

/// What a variant of an enum carries.
#[derive(Debug)]
pub enum Payload {
    /// Nothing.
    Unit,
    /// One value.
    Newtype(Shape),
    /// A fixed number of values.
    Tuple(Vec<Shape>),
    /// Named fields.
    Struct(StructShape),
}

/// A variant of an enum.
#[derive(Debug)]
pub struct VariantShape {
    /// The name by which a tag or a text selects the variant.
    pub name: String,
    /// What the variant carries.
    pub payload: Payload,
}

/// An enum: a name and its variants.
#[derive(Debug)]
pub struct EnumShape {
    pub name: String,
    pub variants: Vec<VariantShape>,
}

/// The description of a target type.
#[derive(Debug)]
pub enum Shape {
    /// The unit type: only null decodes into it.
    Unit,
    /// A boolean.
    Bool,
    /// An integer of the given type.
    Int(IntKind),
    /// A float: any number decodes into it.
    Float,
    /// A single character: a text of length one.
    Char,
    /// A text.
    Str,
    /// A string of bytes: the bytes of a text, or a sequence of numbers.
    Bytes,
    /// Any node of the document, kept as a tree: only the field transformer
    /// has a hand in what it holds.
    Any,
    /// Any node of the document, dropped.
    Ignored,
    /// Null, or a value of the inner shape.
    Optional(Box<Shape>),
    /// A struct around one value: it decodes as the value does.
    Newtype(Box<Shape>),
    /// A sequence of values of one shape.
    Sequence(Box<Shape>),
    /// A sequence of fixed length, each element with a shape of its own.
    Tuple(Vec<Shape>),
    /// A mapping with keys of one shape and values of another.
    Mapping(Box<MapShape>),
    /// A mapping with known keys.
    Struct(StructShape),
    /// One of several named variants.
    Enum(EnumShape),
    /// The node as it stands, kept away from the field transformer, to be
    /// decoded as the inner shape later.
    Verbatim(Box<Shape>),
    /// A value of the inner shape, decoded with the field transformer
    /// switched off.
    VerbatimLegacy(Box<Shape>),
    /// A value of the inner shape, or the reason why the node is none.
    ShouldBe(Box<Shape>),
    /// A value of the inner shape, with the span of the node.
    Spanned(Box<Shape>),
}

/// True if the field is a catch-all field.
pub open spec fn is_flatten_field(f: Field) -> bool {
    spec_is_flatten_key(f.name@)
}

/// True if some field from position `from` on is a catch-all field.
pub open spec fn has_flatten_from(fields: Seq<Field>, from: int) -> bool {
    exists|k: int| from <= k < fields.len() && 0 <= k && is_flatten_field(#[trigger] fields[k])
}

/// The position of the first field that is not a catch-all field and is
/// called `name`, or the number of fields if there is none.
pub open spec fn field_position(fields: Seq<Field>, name: Seq<char>) -> int
    decreases fields.len(),
{
    if fields.len() == 0 {
        0
    } else if fields[0].name@ == name && !is_flatten_field(fields[0]) {
        0
    } else {
        1 + field_position(fields.subrange(1, fields.len() as int), name)
    }
}

/// The position of the first variant called `name`, or the number of
/// variants if there is none.
pub open spec fn variant_position(variants: Seq<VariantShape>, name: Seq<char>) -> int
    decreases variants.len(),
{
    if variants.len() == 0 {
        0
    } else if variants[0].name@ == name {
        0
    } else {
        1 + variant_position(variants.subrange(1, variants.len() as int), name)
    }
}

/// What [`field_position`] finds: the first field with the name that is not
/// a catch-all field.
pub proof fn lemma_field_position(fields: Seq<Field>, name: Seq<char>)
    ensures
        0 <= field_position(fields, name) <= fields.len(),
        field_position(fields, name) < fields.len() ==> {
            &&& fields[field_position(fields, name)].name@ == name
            &&& !is_flatten_field(fields[field_position(fields, name)])
        },
        forall|i: int|
            0 <= i < field_position(fields, name) ==> !((#[trigger] fields[i]).name@ == name
                && !is_flatten_field(fields[i])),
    decreases fields.len(),
{
    if fields.len() > 0 && !(fields[0].name@ == name && !is_flatten_field(fields[0])) {
        let rest = fields.subrange(1, fields.len() as int);
        lemma_field_position(rest, name);
        assert forall|i: int| 0 <= i < field_position(fields, name) implies !((
        #[trigger] fields[i]).name@ == name && !is_flatten_field(fields[i])) by {
            if i > 0 {
                assert(fields[i] == rest[i - 1]);
            }
        }
    }
}

/// The first field with the name that is not a catch-all field is where
/// [`field_position`] points.
pub proof fn lemma_field_position_is(fields: Seq<Field>, name: Seq<char>, p: int)
    requires
        0 <= p <= fields.len(),
        p < fields.len() ==> fields[p].name@ == name && !is_flatten_field(fields[p]),
        forall|i: int|
            0 <= i < p ==> !((#[trigger] fields[i]).name@ == name && !is_flatten_field(fields[i])),
    ensures
        field_position(fields, name) == p,
{
    lemma_field_position(fields, name);
    let q = field_position(fields, name);
    if q < p {
        assert(!(fields[q].name@ == name && !is_flatten_field(fields[q])));
    } else if p < q {
        assert(!(fields[p].name@ == name && !is_flatten_field(fields[p])));
    }
}

/// What [`variant_position`] finds: the first variant with the name.
pub proof fn lemma_variant_position(variants: Seq<VariantShape>, name: Seq<char>)
    ensures
        0 <= variant_position(variants, name) <= variants.len(),
        variant_position(variants, name) < variants.len() ==> variants[variant_position(
            variants,
            name,
        )].name@ == name,
        forall|i: int|
            0 <= i < variant_position(variants, name) ==> (#[trigger] variants[i]).name@ != name,
    decreases variants.len(),
{
    if variants.len() > 0 && variants[0].name@ != name {
        let rest = variants.subrange(1, variants.len() as int);
        lemma_variant_position(rest, name);
        assert forall|i: int| 0 <= i < variant_position(variants, name) implies (
        #[trigger] variants[i]).name@ != name by {
            if i > 0 {
                assert(variants[i] == rest[i - 1]);
            }
        }
    }
}

/// The first variant with the name is where [`variant_position`] points.
pub proof fn lemma_variant_position_is(variants: Seq<VariantShape>, name: Seq<char>, p: int)
    requires
        0 <= p <= variants.len(),
        p < variants.len() ==> variants[p].name@ == name,
        forall|i: int| 0 <= i < p ==> (#[trigger] variants[i]).name@ != name,
    ensures
        variant_position(variants, name) == p,
{
    lemma_variant_position(variants, name);
    let q = variant_position(variants, name);
    if q < p {
        assert(variants[q].name@ != name);
    } else if p < q {
        assert(variants[p].name@ != name);
    }
}

/// The names of the variants, in order.
pub open spec fn variant_names(variants: Seq<VariantShape>) -> Seq<Seq<char>> {
    variants.map_values(|v: VariantShape| v.name@)
}

impl Shape {
    /// What a message says that a decode step for this shape expected.
    pub open spec fn spec_expecting(&self) -> Seq<char> {
        match self {
            Shape::Unit => "unit"@,
            Shape::Bool => "a boolean"@,
            Shape::Int(kind) => kind.spec_name(),
            Shape::Float => "f64"@,
            Shape::Char => "a character"@,
            Shape::Str => "a string"@,
            Shape::Bytes => "byte array"@,
            Shape::Any => "any valid YAML value"@,
            Shape::Ignored => "anything at all"@,
            Shape::Optional(_) => "option"@,
            Shape::Newtype(_) => "newtype struct"@,
            Shape::Sequence(_) => "a sequence"@,
            Shape::Tuple(shapes) => "a tuple of size "@ + decimal(shapes.len() as nat),
            Shape::Mapping(_) => "a map"@,
            Shape::Struct(s) => "struct "@ + s.name@,
            Shape::Enum(e) => "enum "@ + e.name@,
            Shape::Verbatim(_) => "any valid YAML value"@,
            Shape::VerbatimLegacy(_) => "anything at all"@,
            Shape::ShouldBe(_) => "anything at all"@,
            Shape::Spanned(_) => "anything at all"@,
        }
    }

    /// What a message says that a decode step for this shape expected.
    pub fn expecting(&self) -> (r: String)
        ensures
            r@ == self.spec_expecting(),
    {
        match self {
            Shape::Unit => String::from_str("unit"),
            Shape::Bool => String::from_str("a boolean"),
            Shape::Int(kind) => kind.name(),
            Shape::Float => String::from_str("f64"),
            Shape::Char => String::from_str("a character"),
            Shape::Str => String::from_str("a string"),
            Shape::Bytes => String::from_str("byte array"),
            Shape::Any => String::from_str("any valid YAML value"),
            Shape::Ignored => String::from_str("anything at all"),
            Shape::Optional(_) => String::from_str("option"),
            Shape::Newtype(_) => String::from_str("newtype struct"),
            Shape::Sequence(_) => String::from_str("a sequence"),
            Shape::Tuple(shapes) => {
                let mut s = String::from_str("a tuple of size ");
                s.append(usize_to_decimal(shapes.len()).as_str());
                s
            },
            Shape::Mapping(_) => String::from_str("a map"),
            Shape::Struct(st) => {
                let mut s = String::from_str("struct ");
                s.append(st.name.as_str());
                s
            },
            Shape::Enum(e) => {
                let mut s = String::from_str("enum ");
                s.append(e.name.as_str());
                s
            },
            Shape::Verbatim(_) => String::from_str("any valid YAML value"),
            Shape::VerbatimLegacy(_) => String::from_str("anything at all"),
            Shape::ShouldBe(_) => String::from_str("anything at all"),
            Shape::Spanned(_) => String::from_str("anything at all"),
        }
    }

    /// The shape of a struct with the given name and fields.
    pub fn record(name: &str, fields: Vec<Field>) -> (r: Shape)
        ensures
            r matches Shape::Struct(s) && s.name@ == name@ && s.fields == fields,
    {
        Shape::Struct(StructShape { name: String::from_str(name), fields })
    }

    /// The shape of an optional value.
    pub fn optional(inner: Shape) -> (r: Shape)
        ensures
            r == Shape::Optional(Box::new(inner)),
    {
        Shape::Optional(Box::new(inner))
    }

    /// The shape of a struct around one value.
    pub fn newtype(inner: Shape) -> (r: Shape)
        ensures
            r == Shape::Newtype(Box::new(inner)),
    {
        Shape::Newtype(Box::new(inner))
    }

    /// The shape of a sequence.
    pub fn sequence(element: Shape) -> (r: Shape)
        ensures
            r == Shape::Sequence(Box::new(element)),
    {
        Shape::Sequence(Box::new(element))
    }

    /// The shape of a map.
    pub fn map(key: Shape, value: Shape) -> (r: Shape)
        ensures
            r == Shape::Mapping(Box::new(MapShape { key, value })),
    {
        Shape::Mapping(Box::new(MapShape { key, value }))
    }

    /// The shape of a node that is captured as it stands and later decoded
    /// as `inner`.
    pub fn verbatim(inner: Shape) -> (r: Shape)
        ensures
            r == Shape::Verbatim(Box::new(inner)),
    {
        Shape::Verbatim(Box::new(inner))
    }

    /// The shape of a value that is decoded with the field transformer
    /// switched off.
    pub fn verbatim_legacy(inner: Shape) -> (r: Shape)
        ensures
            r == Shape::VerbatimLegacy(Box::new(inner)),
    {
        Shape::VerbatimLegacy(Box::new(inner))
    }

    /// The shape of a value that may fail to decode.
    pub fn should_be(inner: Shape) -> (r: Shape)
        ensures
            r == Shape::ShouldBe(Box::new(inner)),
    {
        Shape::ShouldBe(Box::new(inner))
    }

    /// The shape of a value that remembers its span.
    pub fn spanned(inner: Shape) -> (r: Shape)
        ensures
            r == Shape::Spanned(Box::new(inner)),
    {
        Shape::Spanned(Box::new(inner))
    }
}

impl Field {
    /// A field called `name` that holds a value of the given shape.
    pub fn new(name: &str, shape: Shape) -> (f: Field)
        ensures
            f.name@ == name@,
            f.shape == shape,
    {
        Field { name: String::from_str(name), shape }
    }
}

impl VariantShape {
    /// A variant called `name` with the given payload.
    pub fn new(name: &str, payload: Payload) -> (v: VariantShape)
        ensures
            v.name@ == name@,
            v.payload == payload,
    {
        VariantShape { name: String::from_str(name), payload }
    }
}

impl EnumShape {
    /// An enum called `name` with the given variants.
    pub fn new(name: &str, variants: Vec<VariantShape>) -> (e: EnumShape)
        ensures
            e.name@ == name@,
            e.variants == variants,
    {
        EnumShape { name: String::from_str(name), variants }
    }
}

} // verus!
