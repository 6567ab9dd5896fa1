//! What can go wrong between bytes and a chart.

use vstd::prelude::*;
use crate::field::Field;

verus! {

/// Error while parsing a qua file
#[derive(Debug)]
pub enum QuaError {
    /// The bytes could not be read or written.
    IoError(std::io::Error),
    /// The text is no document, or the document could not be written as text.
    SerdeError(serde_yaml::Error),
    /// The document holds, at the place named, something that the format does
    /// not take there.
    FieldError(Field),
}

} // verus!
