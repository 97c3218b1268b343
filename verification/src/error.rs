use vstd::prelude::*;

verus! {

/// Why a conversion was aborted.
///
/// The codec itself reports the first six kinds. The last two are for the
/// program around it, which reads and writes the files and decodes and
/// encodes the document text: no function of this library returns them.
#[derive(Clone, Copy, Debug, PartialEq, Eq, Structural)]
pub enum Error {
    /// The data is malformed: in the container framing a bad magic, version
    /// or chunk type, or a length that runs past the data; in the scene
    /// graph a cycle.
    FormatError,
    /// An accessor refers to the embedded binary chunk, but the container
    /// has none.
    MissingBinaryChunk,
    /// The document uses a feature outside the supported profile.
    UnsupportedFeature,
    /// A buffer or image lives outside the container.
    UnsupportedExternalBuffer,
    /// An embedded image is not a PNG.
    UnsupportedImageFormat,
    /// An index or byte range points outside its table or the binary chunk.
    OutOfBounds,
    /// A file could not be read or written.
    IoError,
    /// The document text could not be decoded or encoded.
    SerializationError,
}

impl Error {
    /// A short description of the violated expectation.
    pub fn message(&self) -> (text: &'static str)
        ensures
            text@ == self.spec_message()@,
    {
        match self {
            Error::FormatError => "malformed GLB container",
            Error::MissingBinaryChunk => "the container has no binary chunk",
            Error::UnsupportedFeature => "unsupported glTF feature",
            Error::UnsupportedExternalBuffer => "data outside the container is not supported",
            Error::UnsupportedImageFormat => "only PNG images are supported",
            Error::OutOfBounds => "index or byte range out of bounds",
            Error::IoError => "a file could not be read or written",
            Error::SerializationError => "the document text could not be decoded or encoded",
        }
    }

    pub open spec fn spec_message(&self) -> &'static str {
        match self {
            Error::FormatError => "malformed GLB container",
            Error::MissingBinaryChunk => "the container has no binary chunk",
            Error::UnsupportedFeature => "unsupported glTF feature",
            Error::UnsupportedExternalBuffer => "data outside the container is not supported",
            Error::UnsupportedImageFormat => "only PNG images are supported",
            Error::OutOfBounds => "index or byte range out of bounds",
            Error::IoError => "a file could not be read or written",
            Error::SerializationError => "the document text could not be decoded or encoded",
        }
    }
}

} // verus!
