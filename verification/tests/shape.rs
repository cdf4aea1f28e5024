use bitcoinrpc::shape::{first_shape, Shape};
use bitcoinrpc::DecodeError;

#[test]
fn the_detailed_reading_is_taken_first() {
    let detailed: Result<u8, DecodeError> = Ok(1);
    let simple: Result<bool, DecodeError> = Ok(true);
    assert_eq!(first_shape(detailed, simple), Ok(Shape::Detailed(1)));
    let simple: Result<bool, DecodeError> = Err(DecodeError::TypeMismatch);
    assert_eq!(first_shape(detailed, simple), Ok(Shape::Detailed(1)));
}

#[test]
fn the_simple_reading_is_taken_where_the_detailed_one_failed() {
    let detailed: Result<u8, DecodeError> = Err(DecodeError::MissingField);
    let simple: Result<bool, DecodeError> = Ok(true);
    assert_eq!(first_shape(detailed, simple), Ok(Shape::Simple(true)));
}

#[test]
fn two_failed_readings_give_one_error() {
    let detailed: Result<u8, DecodeError> = Err(DecodeError::MissingField);
    let simple: Result<bool, DecodeError> = Err(DecodeError::TypeMismatch);
    assert_eq!(first_shape(detailed, simple), Err(DecodeError::NoShape));
}
