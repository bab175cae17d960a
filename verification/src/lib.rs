//! Borrowed capture of a value of unknown concrete type, and the visitor
//! machinery through which formatters, encoders and typed projections read it.

pub mod coerce;
pub mod error;
pub mod fill;
pub mod float;
pub mod inner;
pub mod laws;
pub mod primitive;
pub mod render;
pub mod structured;
pub mod token;
pub mod value;
pub mod visitor;

pub use error::VisitError;
pub use fill::{Fill, Slot};
pub use float::Floats;
pub use inner::{dispatch_filled, Inner, Settled};
pub use primitive::Primitive;
pub use structured::SvalRef;
pub use token::{Recorder, Token};
pub use value::Value;
pub use visitor::{Call, Text, Visitor};
