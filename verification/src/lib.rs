//! Encoding of structured values as URL query parameters.
//!
//! A [`Value`] describes a record, a dictionary or an enum variant with
//! named fields; [`to_string`], [`to_vec`] and [`to_writer`] render it as
//! `?key=value&key2=a,b,c`. Every function carries a contract that says,
//! byte for byte, what it writes and when it refuses a value.
//!
//! The contracts speak of the mathematical content of a value, its
//! [`Data`]. The module `encoding` defines what is written for it, the
//! modules under `ser` hold the serializers that write it, and the
//! modules `laws` and `wellformed` prove what holds of every output.

pub mod encoding;
pub mod error;
pub mod laws;
pub mod ser;
pub mod text;
pub mod value;
pub mod wellformed;

pub use crate::error::{Error, Fault};
pub use crate::ser::{to_string, to_vec, to_writer, Serializer};
pub use crate::value::{Data, Field, Member, Value};
