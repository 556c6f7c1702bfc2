//! Image upload: the byte ceiling, the sniffed type, and the object to store.

use crate::authorization::{admission_view, admitted, authorize, Context, Identity};
use crate::errors::{AppError, ErrorKind, ErrorView};
use crate::store::failure;
use crate::utils::text::{chars_of, join3, same_text, slice_chars};
use vstd::prelude::*;
use vstd::string::*;

verus! {

/// The most bytes that an upload may hold: 100 KiB.
pub const MAX_UPLOAD_BYTES: usize = 102400;

/// An upload whose bytes are still arriving.
#[derive(Debug, Clone, PartialEq, Eq)]
pub struct Upload {
    /// The authenticated user who uploads.
    pub user_id: String,
    /// The bytes received so far.
    pub data: Vec<u8>,
}

/// An object ready to be put into the object store.
#[derive(Debug, Clone, PartialEq, Eq)]
pub struct PendingObject {
    pub bucket: String,
    pub key: String,
    pub body: Vec<u8>,
    /// The address under which the object will be found.
    pub uri: String,
}

/// The answer to a successful upload.
#[derive(Debug, Clone, PartialEq, Eq)]
pub struct UploadResponse {
    pub uri: String,
}

/// The media type that the leading bytes of `bytes` give away, as
/// `infer::get` finds it, or `None` where it knows none.
pub uninterp spec fn sniffed_mime(bytes: Seq<u8>) -> Option<Seq<char>>;

/// Asks `infer::get` for the type of `bytes` and takes its media type. The
/// contract only names the result.
#[verifier::external_body]
fn sniff_mime(bytes: &Vec<u8>) -> (mime: Option<String>)
    ensures
        match mime {
            Some(m) => sniffed_mime(bytes@) == Some(m@),
            None => sniffed_mime(bytes@) is None,
        },
{
    match infer::get(bytes) {
        Some(kind) => Some(kind.mime_type().to_string()),
        None => None,
    }
}

/// The file extension for a media type that is accepted, or `None` for any
/// other: only JPEG and PNG images are.
pub open spec fn extension_of(mime: Seq<char>) -> Option<Seq<char>> {
    if mime == "image/jpeg"@ || mime == "image/jpg"@ {
        Some("jpg"@)
    } else if mime == "image/png"@ {
        Some("png"@)
    } else {
        None
    }
}

/// Computes `extension_of`.
pub fn extension_for(mime: &str) -> (extension: Option<&'static str>)
    ensures
        match extension {
            Some(e) => extension_of(mime@) == Some(e@),
            None => extension_of(mime@) is None,
        },
{
    if same_text(mime, "image/jpeg") || same_text(mime, "image/jpg") {
        Some("jpg")
    } else if same_text(mime, "image/png") {
        Some("png")
    } else {
        None
    }
}

/// The failure for an upload that is refused as a client error.
pub open spec fn refused(message: Seq<char>) -> ErrorView {
    failure(ErrorKind::BadRequest, message)
}

/// What opening an upload decides, given the outcome of authorization: a
/// refusal stands, else the upload starts with an empty buffer that belongs
/// to the authenticated user.
pub open spec fn upload_opened(
    result: Result<Upload, AppError>,
    admission: Result<Seq<char>, ErrorView>,
) -> bool {
    match admission {
        Err(e) => result matches Err(err) && err@ == e,
        Ok(user_id) => {
            &&& result matches Ok(upload)
            &&& upload.user_id@ == user_id
            &&& upload.data@.len() == 0
        },
    }
}

/// Opens an upload for a request whose authorization had the given outcome.
pub fn upload_file_with(admission: Result<Identity, AppError>) -> (result: Result<Upload, AppError>)
    ensures
        upload_opened(result, admission_view(admission)),
{
    match admission {
        Err(e) => Err(e),
        Ok(identity) => Ok(Upload { user_id: identity.user_id, data: Vec::new() }),
    }
}

/// Opens an upload: authorizes the request by its header and goes on as
/// `upload_file_with`.
pub fn upload_file(ctx: &Context, header: Option<&str>) -> (result: Result<Upload, AppError>)
    ensures
        upload_opened(result, admitted(slice_chars(header), ctx.secret@, ctx.now)),
{
    upload_file_with(authorize(header, ctx.secret.as_str(), ctx.now))
}

/// What to do with an upload once all its bytes are in, given the media
/// type that its bytes gave away: an empty upload, one of unknown type, and
/// one that is no JPEG or PNG image are client errors; a missing bucket is a
/// server error; otherwise the object is named by the fresh identifier and
/// the extension of its type.
pub open spec fn upload_finished(
    result: Result<PendingObject, AppError>,
    upload: Upload,
    fresh_id: Seq<char>,
    bucket: Option<Seq<char>>,
    mime: Option<Seq<char>>,
) -> bool {
    if upload.data@.len() == 0 {
        result matches Err(e) && e@ == refused("File part is missing"@)
    } else {
        match mime {
            None => result matches Err(e) && e@ == refused("Unable to detect file type"@),
            Some(mime) => match extension_of(mime) {
                None => result matches Err(e) && e@ == refused(
                    "Only JPEG, JPG, and PNG files are allowed"@,
                ),
                Some(extension) => match bucket {
                    None => result matches Err(e) && e@ == failure(
                        ErrorKind::InternalServerError,
                        "AWS_S3_BUCKET not set"@,
                    ),
                    Some(name) => {
                        &&& result matches Ok(object)
                        &&& object.bucket@ == name
                        &&& object.key@ == fresh_id + "."@ + extension
                        &&& object.body == upload.data
                        &&& object.uri@ == "https://"@ + name + ".s3.amazonaws.com/"@
                            + object.key@
                    },
                },
            },
        }
    }
}

impl Upload {
    /// Checks the name of a form field: the file must arrive as `file`.
    pub fn field(self, name: &str) -> (result: Result<Upload, AppError>)
        ensures
            match result {
                Ok(upload) => name@ == "file"@ && upload == self,
                Err(e) => name@ != "file"@ && e@ == refused("Invalid field name: expected 'file'"@),
            },
    {
        if same_text(name, "file") {
            Ok(self)
        } else {
            Err(AppError::BadRequest(String::from_str("Invalid field name: expected 'file'")))
        }
    }

    /// Takes the next chunk of bytes. The ceiling is checked as the bytes
    /// arrive: a chunk that would carry the upload past it is refused
    /// without being buffered, and an accepted upload never holds more than
    /// the ceiling allows.
    pub fn receive(self, chunk: &[u8]) -> (result: Result<Upload, AppError>)
        ensures
            match result {
                Ok(upload) => {
                    &&& self.data@.len() + chunk@.len() <= MAX_UPLOAD_BYTES
                    &&& upload.user_id == self.user_id
                    &&& upload.data@ == self.data@ + chunk@
                },
                Err(e) => {
                    &&& self.data@.len() + chunk@.len() > MAX_UPLOAD_BYTES
                    &&& e@ == refused("File size exceeds 100KiB limit"@)
                },
            },
    {
        let held = self.data.len();
        if held > MAX_UPLOAD_BYTES || chunk.len() > MAX_UPLOAD_BYTES - held {
            return Err(AppError::BadRequest(String::from_str("File size exceeds 100KiB limit")));
        }
        let mut data = self.data;
        let n = chunk.len();
        let mut i: usize = 0;
        while i < n
            invariant
                n == chunk@.len(),
                i <= n,
                data@ == self.data@ + chunk@.subrange(0, i as int),
            decreases n - i,
        {
            data.push(chunk[i]);
            assert(data@ =~= self.data@ + chunk@.subrange(0, i + 1));
            i += 1;
        }
        assert(chunk@.subrange(0, n as int) =~= chunk@);
        Ok(Upload { user_id: self.user_id, data })
    }

    /// Ends the upload and decides what to store, under the context's fresh
    /// identifier, in the given bucket, where `mime` is the media type that
    /// the bytes gave away, if any.
    pub fn finish_with(self, ctx: &Context, bucket: Option<&str>, mime: Option<String>) -> (result:
        Result<PendingObject, AppError>)
        ensures
            upload_finished(result, self, ctx.fresh_id@, slice_chars(bucket), chars_of(mime)),
    {
        if self.data.len() == 0 {
            return Err(AppError::BadRequest(String::from_str("File part is missing")));
        }
        let mime = match mime {
            Some(mime) => mime,
            None => {
                return Err(AppError::BadRequest(String::from_str("Unable to detect file type")));
            },
        };
        let extension = match extension_for(mime.as_str()) {
            Some(extension) => extension,
            None => {
                return Err(
                    AppError::BadRequest(
                        String::from_str("Only JPEG, JPG, and PNG files are allowed"),
                    ),
                );
            },
        };
        let name = match bucket {
            Some(name) => name,
            None => {
                return Err(
                    AppError::InternalServerError(String::from_str("AWS_S3_BUCKET not set")),
                );
            },
        };
        let key = join3(ctx.fresh_id.as_str(), ".", extension);
        let mut uri = join3("https://", name, ".s3.amazonaws.com/");
        uri.append(key.as_str());
        Ok(PendingObject { bucket: String::from_str(name), key, body: self.data, uri })
    }

    /// Ends the upload: sniffs the media type from the bytes, never from
    /// what the client declared, and goes on as `finish_with`.
    pub fn finish(self, ctx: &Context, bucket: Option<&str>) -> (result: Result<
        PendingObject,
        AppError,
    >)
        ensures
            upload_finished(
                result,
                self,
                ctx.fresh_id@,
                slice_chars(bucket),
                sniffed_mime(self.data@),
            ),
    {
        let mime = sniff_mime(&self.data);
        self.finish_with(ctx, bucket, mime)
    }
}

impl PendingObject {
    /// Takes the outcome of putting the object into the object store: the
    /// answer is its address, and a failed transport is an `AWSError`.
    pub fn conclude(self, stored: bool) -> (result: Result<UploadResponse, AppError>)
        ensures
            match result {
                Ok(response) => stored && response.uri == self.uri,
                Err(e) => !stored && e@ == failure(ErrorKind::AWSError, "Failed to upload file"@),
            },
    {
        if stored {
            Ok(UploadResponse { uri: self.uri })
        } else {
            Err(AppError::AWSError(String::from_str("Failed to upload file")))
        }
    }
}

} // verus!
