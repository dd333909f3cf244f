use vstd::prelude::*;

verus! {

/// A recoverable failure, carried as a plain message for the status line.
pub struct Error {
    pub message: String,
}

impl Error {
    pub fn new(message: &str) -> (e: Self)
        ensures
            e.message@ == message@,
    {
        Self { message: message.to_owned() }
    }
}

} // verus!
