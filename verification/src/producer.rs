//! The producer side's error type. Composing and publishing a message is
//! network work outside the library; what comes back from it is reduced
//! to this plain error.

use vstd::prelude::*;

verus! {

/// An error reported while publishing a message, reduced to its message.
#[derive(Debug)]
pub struct ProducerError {
    pub message: String,
}

impl Clone for ProducerError {
    fn clone(&self) -> (r: Self)
        ensures
            r == *self,
    {
        ProducerError { message: self.message.clone() }
    }
}

impl ProducerError {
    pub fn new(message: String) -> (r: ProducerError)
        ensures
            r.message == message,
    {
        ProducerError { message }
    }
}

} // verus!
