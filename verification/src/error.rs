//! Errors that a malformed configuration is rejected with

use vstd::prelude::*;

verus! {

/// A part of the configuration that is checked when it is built.
#[derive(Clone, Copy, Debug, PartialEq, Eq, Structural)]
pub enum Field {
    /// The name of a container image
    Image,
    /// The tag of a container image
    Tag,
    /// The port that the server listens on
    Port,
    /// The server that is tested
    Server,
}

/// The reason why a configuration was rejected before any container was started.
#[derive(Clone, Copy, Debug, PartialEq, Eq, Structural)]
pub enum ValidationError {
    /// A required field was never set.
    Missing(Field),
    /// A field was set to a value that no container can be started with: an empty image name,
    /// an empty tag, or the port 0.
    Invalid(Field),
}

impl ValidationError {
    /// The field that the error is about
    pub fn field(&self) -> (field: Field)
        ensures
            field == match *self {
                ValidationError::Missing(f) => f,
                ValidationError::Invalid(f) => f,
            },
    {
        match self {
            ValidationError::Missing(field) => *field,
            ValidationError::Invalid(field) => *field,
        }
    }
}

/// The first problem of an image name and a tag, if there is one: the image is looked at before
/// the tag, and a field that is missing is reported as missing, one that is empty as invalid.
pub open spec fn image_problem(
    image: Option<Seq<char>>,
    tag: Option<Seq<char>>,
) -> Option<ValidationError> {
    if image is None {
        Some(ValidationError::Missing(Field::Image))
    } else if image->0.len() == 0 {
        Some(ValidationError::Invalid(Field::Image))
    } else if tag is None {
        Some(ValidationError::Missing(Field::Tag))
    } else if tag->0.len() == 0 {
        Some(ValidationError::Invalid(Field::Tag))
    } else {
        None
    }
}

/// The problem of a port, if there is one: it is missing, or it is 0.
pub open spec fn port_problem(port: Option<u16>) -> Option<ValidationError> {
    if port is None {
        Some(ValidationError::Missing(Field::Port))
    } else if port->0 == 0 {
        Some(ValidationError::Invalid(Field::Port))
    } else {
        None
    }
}

} // verus!
