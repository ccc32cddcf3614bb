use vstd::prelude::*;

verus! {

/// An error carrying a human-readable message.
pub struct Error {
    pub message: String,
}

impl Error {
    /// Copies the given text into a fresh error value.
    pub fn new(message: &str) -> (e: Self)
        ensures
            e.message@ == message@,
    {
        Self { message: message.to_owned() }
    }
}

impl View for Error {
    type V = Seq<char>;

    open spec fn view(&self) -> Seq<char> {
        self.message@
    }
}

} // verus!
