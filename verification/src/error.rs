use vstd::prelude::*;

verus! {

/// The ways a single icon extraction can fail.  Every failure is terminal for
/// the call: nothing is retried and no partial icon is ever returned.
#[derive(Clone, Copy, Debug, PartialEq, Eq, Structural)]
pub enum IconError {
    /// The path does not exist; checked before any OS call is made.
    NotFound,
    /// The OS declined to provide an icon resource for the path.
    HandleAcquisitionFailed,
    /// Pixel data could not be copied out of the OS-provided bitmap.
    BufferExtractionFailed,
    /// Image compression or serialization failed.
    EncodingFailed,
    /// No extractor exists for the running OS.
    Unsupported,
}

impl IconError {
    /// The descriptive message that belongs to each error kind.
    pub open spec fn message_spec(self) -> Seq<char> {
        match self {
            IconError::NotFound => "Path does not exist"@,
            IconError::HandleAcquisitionFailed => "Failed to get icon handle"@,
            IconError::BufferExtractionFailed => "Failed to extract icon pixel data"@,
            IconError::EncodingFailed => "Failed to encode icon image"@,
            IconError::Unsupported => "Icon extraction not supported on this platform"@,
        }
    }

    /// A short description of the failure, surfaced to the application layer
    /// as an opaque message.
    pub fn message(&self) -> (r: &'static str)
        ensures
            r@ == self.message_spec(),
    {
        match self {
            IconError::NotFound => "Path does not exist",
            IconError::HandleAcquisitionFailed => "Failed to get icon handle",
            IconError::BufferExtractionFailed => "Failed to extract icon pixel data",
            IconError::EncodingFailed => "Failed to encode icon image",
            IconError::Unsupported => "Icon extraction not supported on this platform",
        }
    }
}

} // verus!
