//! The ways in which one file of a batch can fail.

use vstd::prelude::*;
use vstd::string::*;

verus! {

/// Why a file was not resized.
#[derive(Debug, Clone, Copy, PartialEq, Eq, Structural)]
pub enum ProcessingError {
    /// The source image has no area, so it has no aspect ratio to keep.
    DegenerateImage,
    /// The source could not be read, or its bytes are no image of the kind
    /// its name announces.
    DecodeError,
    /// No codec is known for the extension that decides the output format.
    UnsupportedFormat,
    /// The output could not be encoded or stored.
    WriteError,
    /// The source path does not end in a file name.
    InvalidFileName,
}

impl ProcessingError {
    /// The text of `message` for each error.
    pub open spec fn message_text(self) -> Seq<char> {
        match self {
            ProcessingError::DegenerateImage => "Image has no area"@,
            ProcessingError::DecodeError => "Failed to open image"@,
            ProcessingError::UnsupportedFormat => "Unsupported image format"@,
            ProcessingError::WriteError => "Failed to save image"@,
            ProcessingError::InvalidFileName => "Invalid file name"@,
        }
    }

    /// A line of text that names the error to a person.
    pub fn message(&self) -> (text: String)
        ensures
            text@ == self.message_text(),
    {
        match self {
            ProcessingError::DegenerateImage => String::from_str("Image has no area"),
            ProcessingError::DecodeError => String::from_str("Failed to open image"),
            ProcessingError::UnsupportedFormat => String::from_str("Unsupported image format"),
            ProcessingError::WriteError => String::from_str("Failed to save image"),
            ProcessingError::InvalidFileName => String::from_str("Invalid file name"),
        }
    }
}

} // verus!
