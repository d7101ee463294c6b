//! Configuration values that must never appear in logs or debug output.
use vstd::prelude::*;

verus! {

/// A configuration value that must never appear in logs or `Debug` output.
#[derive(Clone)]
pub struct Secret(String);

impl View for Secret {
    type V = Seq<char>;

    closed spec fn view(&self) -> Seq<char> {
        self.0@
    }
}

impl Secret {
    pub fn new(value: String) -> (s: Secret)
        ensures
            s@ == value@,
    {
        Secret(value)
    }

    /// Call only at the point where the raw value is handed to a client library.
    pub fn expose(&self) -> (r: &str)
        ensures
            r@ == self@,
    {
        self.0.as_str()
    }

    /// The debug representation, which never reveals the value.
    pub fn debug_repr(&self) -> (r: String)
        ensures
            r@ == "Secret([REDACTED])"@,
    {
        "Secret([REDACTED])".to_owned()
    }
}

} // verus!
