//! Which files are taken up, and the names of the folders they move between.

use vstd::prelude::*;
use vstd::string::*;
use crate::response::same_text;
use crate::workflow::Destination;

verus! {

/// `extension` is one of the image extensions that are taken up.
pub open spec fn image_extension(extension: Seq<char>) -> bool {
    extension == "png"@ || extension == "jpg"@ || extension == "jpeg"@
}

/// Whether a file with this extension is taken up. Case counts.
pub fn is_image_extension(extension: &str) -> (yes: bool)
    ensures
        yes == image_extension(extension@),
{
    same_text(extension, "png") || same_text(extension, "jpg") || same_text(extension, "jpeg")
}

/// The name of the folder, below the base path, that files are taken from.
pub fn input_folder() -> (name: &'static str)
    ensures
        name@ == "CAG_INPUT"@,
{
    "CAG_INPUT"
}

impl Destination {
    /// The name of the folder, below the base path, that stands for this
    /// destination.
    pub fn folder(&self) -> (name: &'static str)
        ensures
            *self == Destination::Matched ==> name@ == "CAG_SAUCE"@,
            *self == Destination::Unmatched ==> name@ == "CAG_NOSAUCE"@,
    {
        match self {
            Destination::Matched => "CAG_SAUCE",
            Destination::Unmatched => "CAG_NOSAUCE",
        }
    }
}

} // verus!
