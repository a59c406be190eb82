//! The entity reader's verified core: deciding from the declared
//! content length how many body bytes one invocation carries, and holding
//! the bytes actually read against that declaration.
//!
//! Reading the input stream itself is host I/O and stays with the caller;
//! the caller must not touch the stream at all when the plan is zero.

use vstd::prelude::*;

use crate::numtext::{all_digits, digits_value, parse_decimal};

verus! {

/// Why the entity body was rejected. Both failures are fatal: they mean
/// the invocation is malformed, not that the daemon is unavailable.
#[derive(Clone, Copy, Debug, PartialEq, Eq, Structural)]
pub enum EntityError {
    /// The declared content length is neither absent, empty, nor a decimal
    /// number that fits the platform's size type.
    BadContentLength,
    /// The input stream held a different number of bytes than declared.
    LengthMismatch,
}

/// Decides how many body bytes the invocation declares:
/// - no declared length, an empty one, or a literal `0` mean an empty
///   body, and the input stream must not be consumed;
/// - any other declared length must be a decimal number and gives the
///   exact count of bytes to read;
/// - anything else is a fatal configuration error.
pub fn content_length_plan(cl: &Option<Vec<u8>>) -> (r: Result<usize, EntityError>)
    ensures
        match cl {
            Option::None => r == Ok::<usize, EntityError>(0),
            Option::Some(v) => if v@.len() == 0 {
                r == Ok::<usize, EntityError>(0)
            } else if all_digits(v@) && digits_value(v@) <= usize::MAX {
                r matches Ok(n) && n == digits_value(v@)
            } else {
                r == Err::<usize, EntityError>(EntityError::BadContentLength)
            },
        },
{
    match cl {
        None => Ok(0),
        Some(v) => {
            if v.len() == 0 {
                return Ok(0);
            }
            match parse_decimal(v.as_slice()) {
                Some(n) => Ok(n),
                None => Err(EntityError::BadContentLength),
            }
        },
    }
}

/// Holds the body bytes actually read against the declared length: a
/// mismatch in either direction is fatal, never recoverable.
pub fn check_entity_length(body: &Vec<u8>, expected: usize) -> (r: Result<(), EntityError>)
    ensures
        body@.len() == expected ==> r == Ok::<(), EntityError>(()),
        body@.len() != expected ==> r == Err::<(), EntityError>(EntityError::LengthMismatch),
{
    if body.len() == expected {
        Ok(())
    } else {
        Err(EntityError::LengthMismatch)
    }
}

} // verus!
