//! The envelope that every endpoint wraps its payload in.

use vstd::prelude::*;

verus! {

/// `{code, message, data}`: `code == 0` is success; any other code is a
/// business error, and then `data` is not handed to the caller.
#[derive(Debug, Clone)]
pub struct BpiResponse<T> {
    pub code: i32,
    pub message: String,
    pub data: Option<T>,
}

impl<T> BpiResponse<T> {
    /// The payload, consuming the envelope.
    pub fn into_data(self) -> (r: Option<T>)
        ensures
            r == self.data,
    {
        self.data
    }
}

} // verus!
