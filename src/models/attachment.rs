use vstd::prelude::*;
use vstd::string::*;

verus! {

/// Represents the payload for an attachment.
#[derive(Debug, Clone)]
pub struct AttachmentPayload {
    /// The filename of the attachment.
    pub file_name: String,
    /// The file path of the attachment.
    pub file_path: String,
    /// The MIME type of the attachment.
    pub mime_type: String,
}


impl AttachmentPayload {
    /// An attachment of file `file_path`, sent as `file_name` with type `mime_type`.
    pub fn new(file_name: &str, file_path: &str, mime_type: &str) -> (r: AttachmentPayload)
        ensures
            r.file_name@ == file_name@,
            r.file_path@ == file_path@,
            r.mime_type@ == mime_type@,
    {
        AttachmentPayload {
            mime_type: String::from_str(mime_type),
            file_name: String::from_str(file_name),
            file_path: String::from_str(file_path),
        }
    }
}

} // verus!
