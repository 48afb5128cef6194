//! Laws of the library: statements that relate several of its operations,
//! each proved from the definitions.

pub mod decode;
pub mod events;
pub mod merge;
pub mod number;
pub mod transform;
pub mod value;
