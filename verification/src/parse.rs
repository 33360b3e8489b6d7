//! Reading messages from the payload of a frame.

use crate::error::ParseError;
use vstd::prelude::*;

verus! {

/// A type of messages that can be read from the payload of a frame.
pub trait ParseBytes<T: 'static>: Send + Sync + Clone {
    fn from_bytes(bytes: &[u8]) -> (r: Result<T, ParseError>);
}

/// Any payload is a message of bytes, as it stands.
impl ParseBytes<Vec<u8>> for Vec<u8> {
    fn from_bytes(bytes: &[u8]) -> (r: Result<Vec<u8>, ParseError>)
        ensures
            r matches Ok(message) && message@ == bytes@,
    {
        Ok(vstd::slice::slice_to_vec(bytes))
    }
}

} // verus!
