//! Insertion of an embedded image into a layer. The payload is a base64
//! string; decoding it is the business of an external collaborator, so this
//! core carries the text unread.

use vstd::prelude::*;

verus! {

/// An embedded image, carried as base64 text.
#[derive(Debug, Clone, PartialEq)]
pub struct ImageInsertion {
    base64: String,
}

impl ImageInsertion {
    /// The base64 text of the image.
    pub closed spec fn payload(&self) -> Seq<char> {
        self.base64@
    }

    /// Creates an image insertion from its base64 text.
    pub fn new(base64: &str) -> (r: ImageInsertion)
        ensures
            r.payload() == base64@,
    {
        ImageInsertion { base64: String::from_str(base64) }
    }

    /// Read access to the base64 text.
    pub fn base64(&self) -> (r: &String)
        ensures
            r@ == self.payload(),
    {
        &self.base64
    }
}

} // verus!
