//! A document model for a YAML-like markup and a typed decoder over it,
//! verified with Verus.
//!
//! A document is a tree of [`Value`]s: scalars, sequences, insertion-ordered
//! mappings and tagged nodes, each with the [`Span`] of source text that it
//! came from. The library
//!
//! - builds a document from the events of a parser, stamping every node with
//!   its span and treating repeated keys as a [`DuplicateKeyPolicy`] decides
//!   ([`Value::from_events`]);
//! - reads the text of plain scalars ([`Value::from_scalar`]);
//! - expands merge keys ([`Value::apply_merge`]);
//! - decodes a document into a target that a [`Shape`] describes
//!   ([`Value::into_typed`], [`Value::to_typed`]), reporting the keys that no
//!   field takes, handing every node to a [`FieldTransformer`] first, keeping
//!   [`Verbatim`] parts away from the transformer, and turning the failure of
//!   a [`ShouldBe`] part into data.
//!
//! Every operation has a contract over a mathematical model of its data; the
//! module `laws` holds what is proved of the operations taken together.
//!
//! Floats are held as bit patterns: the library compares and classifies them
//! but does not parse or print them.

pub mod de;
pub mod decoded;
pub mod error;
pub mod events;
pub mod laws;
pub mod merge;
pub mod number;
pub mod path;
pub mod scalar;
pub mod shape;
pub mod shouldbe;
pub mod span;
pub mod spanned;
pub mod text;
pub mod value;
pub mod verbatim;

pub use de::borrowed::ValueRefDeserializer;
pub use de::owned::ValueDeserializer;
pub use de::{FieldTransformer, NoTransform, TransformedResult, UnusedKey};
pub use decoded::Decoded;
pub use events::{DuplicateKey, DuplicateKeyPolicy, Event, EventKind, ScalarStyle};
pub use error::{Error, ErrorKind, ExternalError, Unexpected};
pub use number::Number;
pub use path::Path;
pub use shape::{EnumShape, Field, IntKind, MapShape, Payload, Shape, StructShape, VariantShape};
pub use shouldbe::{ShouldBe, WhyNot};
pub use verbatim::{Verbatim, VerbatimLegacy};
pub use span::{Marker, Span};
pub use spanned::{
    get_filename, get_marker, reset_marker, set_filename, set_marker, with_filename, Position,
    Spanned, WithFilenameScope,
};
pub use value::{Mapping, TaggedValue, Value};
