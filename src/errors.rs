use vstd::prelude::*;
use vstd::std_specs::convert::IntoSpec;

verus! {

/// A plain error carrying a human-readable message.
#[derive(Debug, Default)]
pub struct ErrorStr {
    error: String,
}

impl View for ErrorStr {
    type V = Seq<char>;

    closed spec fn view(&self) -> Seq<char> {
        self.error@
    }
}

impl ErrorStr {
    /// Builds an error from anything that converts into a `String`.
    pub fn new<S>(error: S) -> (r: Self)
        where
            S: Into<String>,
        ensures
            S::obeys_into_spec() ==> r@ == error.into_spec()@,
    {
        Self { error: error.into() }
    }

    /// The message carried by this error.
    pub fn message(&self) -> (r: String)
        ensures
            r@ == self@,
    {
        self.error.clone()
    }
}

} // verus!
