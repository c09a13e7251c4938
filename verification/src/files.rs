use vstd::prelude::*;
use crate::envelope::{Rejection, TextReply, STATUS_OK};

verus! {

/// The content type of a file that declares none.
pub open spec fn default_content_type() -> Seq<char> {
    "application/octet-stream"@
}

/// The content type that goes with a file: the declared one, or the default.
pub open spec fn content_type_of(declared: Option<String>) -> Seq<char> {
    match declared {
        Some(text) => text@,
        None => default_content_type(),
    }
}

/// A file as the store holds it: its bytes and the content type in its
/// metadata, if it has one.
#[derive(Clone, Debug, PartialEq, Eq)]
pub struct StoredFile {
    pub bytes: Vec<u8>,
    pub content_type: Option<String>,
}

/// A file to put into the store.
#[derive(Clone, Debug, PartialEq, Eq)]
pub struct FileUpload {
    pub key: String,
    pub bytes: Vec<u8>,
    pub content_type: String,
}

/// The answer to a request for a file.
#[derive(Clone, Debug, PartialEq, Eq)]
pub enum FileReply {
    /// The bytes, to go out with `content_type` in the `Content-Type` header.
    Found { bytes: Vec<u8>, content_type: String },
    /// No such file.
    Missing(TextReply),
}

/// The declared content type, or the default where none is declared.
pub fn content_type_or_default(declared: Option<String>) -> (content_type: String)
    ensures
        content_type@ == content_type_of(declared),
{
    match declared {
        Some(text) => text,
        None => String::from_str("application/octet-stream"),
    }
}

/// Reading a file: the bytes go out with the stored content type or the
/// default; a key without a file is answered with 404.
pub fn handle_file_get(object: Option<StoredFile>) -> (reply: FileReply)
    ensures
        match object {
            Some(file) => {
                &&& reply matches FileReply::Found { bytes, content_type }
                &&& bytes == file.bytes
                &&& content_type@ == content_type_of(file.content_type)
            },
            None => {
                &&& reply matches FileReply::Missing(text)
                &&& text.status == 404
                &&& text.text@ == Rejection::NotFound.message_spec()
            },
        },
{
    match object {
        Some(file) => FileReply::Found {
            bytes: file.bytes,
            content_type: content_type_or_default(file.content_type),
        },
        None => FileReply::Missing(
            TextReply { status: Rejection::NotFound.status(), text: Rejection::NotFound.message() },
        ),
    }
}

/// Storing a file, first step: the body of the request is stored under `key`
/// with the content type of the request's header, or the default where the
/// header is missing.
pub fn handle_file_upload(key: &str, header: Option<String>, bytes: Vec<u8>) -> (upload: FileUpload)
    ensures
        upload.key@ == key@,
        upload.bytes == bytes,
        upload.content_type@ == content_type_of(header),
{
    FileUpload {
        key: String::from_str(key),
        bytes,
        content_type: content_type_or_default(header),
    }
}

/// Storing a file, last step: the answer once the file is stored.
pub fn file_upload_reply() -> (reply: TextReply)
    ensures
        reply.status == STATUS_OK,
        reply.text@ == "Uploaded"@,
{
    TextReply { status: STATUS_OK, text: String::from_str("Uploaded") }
}

} // verus!
