//! Replies that come in one of two shapes.
//!
//! Two calls return either a record in detail or a plain value, as the caller
//! asked, and nothing in the answer says which of the two it is. Both are
//! read in the same way, which this module states once: the detailed shape
//! is tried first, the simple shape only where the detailed one does not fit.
//! The order matters: a value that fits both is read in detail, so that
//! nothing of what the server sent is dropped.

use crate::error::DecodeError;
use vstd::prelude::*;

verus! {

/// A value of one of two shapes.
#[derive(Debug, PartialEq, Eq)]
pub enum Shape<D, S> {
    /// The record in detail.
    Detailed(D),
    /// The plain value.
    Simple(S),
}

/// What a value gives that was read as each of its two shapes: the detailed
/// reading where that succeeded, else the simple reading where that
/// succeeded, else the error that says that neither shape fits.
pub open spec fn shape_of<D, S>(
    detailed: Result<D, DecodeError>,
    simple: Result<S, DecodeError>,
) -> Result<Shape<D, S>, DecodeError> {
    match detailed {
        Ok(record) => Ok(Shape::Detailed(record)),
        Err(_) => match simple {
            Ok(value) => Ok(Shape::Simple(value)),
            Err(_) => Err(DecodeError::NoShape),
        },
    }
}

/// Chooses between the two readings of a value, the detailed one first.
pub fn first_shape<D, S>(detailed: Result<D, DecodeError>, simple: Result<S, DecodeError>) -> (r:
    Result<Shape<D, S>, DecodeError>)
    ensures
        r == shape_of(detailed, simple),
{
    match detailed {
        Ok(record) => Ok(Shape::Detailed(record)),
        Err(_) => match simple {
            Ok(value) => Ok(Shape::Simple(value)),
            Err(_) => Err(DecodeError::NoShape),
        },
    }
}

/// A value of the detailed shape gives the detailed variant, whether or not
/// it has the simple shape too; one of the simple shape only gives the simple
/// variant; one of neither shape is refused, and gives no value at all.
pub proof fn lemma_shape_of<D, S>(detailed: Result<D, DecodeError>, simple: Result<S, DecodeError>)
    ensures
        detailed is Ok ==> shape_of(detailed, simple) == Ok::<Shape<D, S>, DecodeError>(
            Shape::Detailed(detailed->Ok_0),
        ),
        detailed is Err && simple is Ok ==> shape_of(detailed, simple) == Ok::<
            Shape<D, S>,
            DecodeError,
        >(Shape::Simple(simple->Ok_0)),
        detailed is Err && simple is Err ==> shape_of(detailed, simple) == Err::<
            Shape<D, S>,
            DecodeError,
        >(DecodeError::NoShape),
{
}

} // verus!
