//! Images that the client fetches for the front end, and page images that it
//! uploads.

use vstd::prelude::*;
use crate::encoding::{base64_standard, encode_standard};
use crate::http::bearer_of;
use crate::text::prefixed;
use crate::image_cache::reader::lemma_last_dot_unique;
use crate::project::{ProxyImageReply, UploadProjectFileReq};
use crate::text::{chars_last_index_of, ends_with, is_last_index_of, str_chars, str_ends_with, str_eq};

verus! {

/// The largest image that the client fetches for the front end, in bytes.
pub const MAX_PROXY_BYTES: u64 = 33554432;

/// What the `url` crate makes of an address: the host of the URL that
/// `Url::parse` reads from the text, as `Url::host_str` gives it, or the
/// message of the error with which the parse fails.
pub uninterp spec fn parsed_host(address: Seq<char>) -> Result<Option<Seq<char>>, Seq<char>>;

/// The host in `parsed`, as sequences of characters.
pub open spec fn host_view(parsed: Result<Option<String>, String>) -> Result<
    Option<Seq<char>>,
    Seq<char>,
> {
    match parsed {
        Ok(Some(host)) => Ok(Some(host@)),
        Ok(None) => Ok(None),
        Err(message) => Err(message@),
    }
}

/// Trusted: `url::Url::parse`, and `url::Url::host_str` on the URL that it
/// returns. The contract names what the two give for the text and claims
/// nothing else of it; an error of the parse is handed on as its message.
#[verifier::external_body]
fn parse_host(address: &str) -> (parsed: Result<Option<String>, String>)
    ensures
        host_view(parsed) == parsed_host(address@),
{
    match url::Url::parse(address) {
        Ok(parsed) => Ok(parsed.host_str().map(|host| host.to_owned())),
        Err(error) => Err(format!("{}", error)),
    }
}

/// Whether an image may be fetched from the address of which `parsed` was
/// made: the address has to be a URL with a host, and the host has to end in
/// `m-t.pics`.
pub open spec fn target_allowed(parsed: Result<Option<Seq<char>>, Seq<char>>) -> Result<
    (),
    Seq<char>,
> {
    match parsed {
        Err(message) => Err("Invalid URL: "@ + message),
        Ok(None) => Err("URL missing host"@),
        Ok(Some(host)) => if ends_with(host, "m-t.pics"@) {
            Ok(())
        } else {
            Err("Host not allowed"@)
        },
    }
}

/// `r` is `expected`, the message of an error taken as text.
pub open spec fn same_check(r: Result<(), String>, expected: Result<(), Seq<char>>) -> bool {
    match expected {
        Ok(_) => r is Ok,
        Err(text) => r matches Err(m) && m@ == text,
    }
}

/// Decides whether an image may be fetched, given what parsing its address
/// gave.
pub fn check_proxy_host(parsed: Result<Option<String>, String>) -> (r: Result<(), String>)
    ensures
        same_check(r, target_allowed(host_view(parsed))),
{
    match parsed {
        Err(message) => Err(prefixed("Invalid URL: ", message.as_str())),
        Ok(None) => Err(String::from_str("URL missing host")),
        Ok(Some(host)) => {
            if str_ends_with(host.as_str(), "m-t.pics") {
                Ok(())
            } else {
                Err(String::from_str("Host not allowed"))
            }
        },
    }
}

/// Decides whether an image may be fetched from `address`.
pub fn proxy_image_target(address: &str) -> (r: Result<(), String>)
    ensures
        same_check(r, target_allowed(parsed_host(address@))),
{
    check_proxy_host(parse_host(address))
}

/// What is known of a response before its body is read.
#[derive(Debug)]
pub struct ResponseHead {
    /// Whether the status is one of success.
    pub success: bool,
    /// The status, as text.
    pub status: String,
    /// The length that the response declares, if it declares one.
    pub content_length: Option<u64>,
    /// The content type that the response declares, if it is plain text.
    pub content_type: Option<String>,
}

/// Whether the body of a response is to be read: the request got through,
/// the status is one of success, and the declared length, which counts as
/// zero where none is declared, is within the limit.
pub open spec fn body_wanted(reply: Result<ResponseHead, String>) -> Result<(), Seq<char>> {
    match reply {
        Err(cause) => Err("Fetch failed: "@ + cause@),
        Ok(head) => if !head.success {
            Err("Remote returned status "@ + head.status@)
        } else if head.content_length matches Some(n) && n > MAX_PROXY_BYTES {
            Err("Remote file too large"@)
        } else {
            Ok(())
        },
    }
}

/// Decides whether the body of a response is to be read.
pub fn check_proxy_response(reply: &Result<ResponseHead, String>) -> (r: Result<(), String>)
    ensures
        same_check(r, body_wanted(*reply)),
{
    match reply {
        Err(cause) => Err(prefixed("Fetch failed: ", cause.as_str())),
        Ok(head) => {
            if !head.success {
                return Err(prefixed("Remote returned status ", head.status.as_str()));
            }
            match head.content_length {
                Some(n) => {
                    if n > MAX_PROXY_BYTES {
                        return Err(String::from_str("Remote file too large"));
                    }
                },
                None => {},
            }
            Ok(())
        },
    }
}

/// The content type under which a fetched image is handed on.
pub open spec fn declared_type(content_type: Option<String>) -> Seq<char> {
    match content_type {
        Some(text) => text@,
        None => "application/octet-stream"@,
    }
}

/// What fetching an image returns, once its body was read.
pub open spec fn image_fetched(
    content_type: Option<String>,
    body: Result<Vec<u8>, String>,
    r: Result<ProxyImageReply, String>,
) -> bool {
    match body {
        Err(cause) => r matches Err(m) && m@ == "Read body failed: "@ + cause@,
        Ok(bytes) => if bytes@.len() > MAX_PROXY_BYTES {
            r matches Err(m) && m@ == "Remote file too large"@
        } else {
            r matches Ok(image) && image.b64@ == base64_standard(bytes@) && image.content_type@
                == declared_type(content_type)
        },
    }
}

/// The image as the front end gets it: its bytes in base64, under the
/// content type that the response declared. `body` holds the bytes of the
/// response, or the reason why they could not be read. An image over the
/// limit is refused, whatever length was declared.
pub fn proxy_image(content_type: Option<String>, body: Result<Vec<u8>, String>) -> (r: Result<
    ProxyImageReply,
    String,
>)
    ensures
        image_fetched(content_type, body, r),
{
    match body {
        Err(cause) => Err(prefixed("Read body failed: ", cause.as_str())),
        Ok(bytes) => {
            if bytes.len() as u64 > MAX_PROXY_BYTES {
                return Err(String::from_str("Remote file too large"));
            }
            let content_type = match content_type {
                Some(text) => text,
                None => String::from_str("application/octet-stream"),
            };
            Ok(ProxyImageReply { b64: encode_standard(bytes.as_slice()), content_type })
        },
    }
}

/// The lower-case form of a text, as `str::to_lowercase` gives it.
pub uninterp spec fn lowercase_of(text: Seq<char>) -> Seq<char>;

/// Trusted: `str::to_lowercase` of the standard library. The contract names
/// its result and claims nothing else of it.
#[verifier::external_body]
fn to_lowercase(text: &str) -> (lower: String)
    ensures
        lower@ == lowercase_of(text@),
{
    text.to_lowercase()
}

/// What stands behind the last dot of a name; the whole name, if it has no
/// dot.
pub open spec fn last_segment(name: Seq<char>) -> Seq<char> {
    if exists|at: int| is_last_index_of(name, '.', at) {
        name.subrange((choose|at: int| is_last_index_of(name, '.', at)) + 1, name.len() as int)
    } else {
        name
    }
}

/// The type of a file by its name: what stands behind the last dot, in
/// lower case.
pub fn upload_extension(file_name: &str) -> (ext: String)
    ensures
        ext@ == lowercase_of(last_segment(file_name@)),
{
    let name = str_chars(file_name);
    match chars_last_index_of(&name, '.') {
        Some(at) => {
            proof {
                let chosen = choose|c: int| is_last_index_of(file_name@, '.', c);
                lemma_last_dot_unique(file_name@, at as int, chosen);
            }
            let total = file_name.unicode_len();
            to_lowercase(file_name.substring_char(at + 1, total))
        },
        None => to_lowercase(file_name),
    }
}

/// A page image may be a JPEG, a PNG or a bitmap.
pub open spec fn type_supported(ext: Seq<char>) -> bool {
    ext == "jpg"@ || ext == "jpeg"@ || ext == "png"@ || ext == "bmp"@
}

/// The refusal of a file of type `ext`.
pub open spec fn unsupported_text(ext: Seq<char>) -> Seq<char> {
    "Unsupported file type: "@ + ext + ". Only jpg/jpeg/png/bmp are allowed"@
}

/// Decides whether a file of type `ext`, given in lower case, may be
/// uploaded.
pub fn check_upload_type(ext: &str) -> (r: Result<(), String>)
    ensures
        type_supported(ext@) ==> r is Ok,
        !type_supported(ext@) ==> (r matches Err(m) && m@ == unsupported_text(ext@)),
{
    if str_eq(ext, "jpg") || str_eq(ext, "jpeg") || str_eq(ext, "png") || str_eq(ext, "bmp") {
        Ok(())
    } else {
        let mut m = prefixed("Unsupported file type: ", ext);
        m.append(". Only jpg/jpeg/png/bmp are allowed");
        Err(m)
    }
}

/// An upload that is ready to be sent.
#[derive(Debug)]
pub struct UploadCall {
    /// The address to post the file to.
    pub url: String,
    /// The value of the `Authorization` header.
    pub authorization: String,
}

/// The address to which the pages of a project are posted.
pub open spec fn upload_url(base_url: Seq<char>, project_id: Seq<char>) -> Seq<char> {
    base_url + "/v1/projects/"@ + project_id + "/files"@
}

/// What preparing an upload gives. The type of the file is checked first;
/// then a token has to be at hand.
pub open spec fn upload_prepared(
    payload: UploadProjectFileReq,
    token: Result<Option<String>, String>,
    base_url: Seq<char>,
    r: Result<UploadCall, String>,
) -> bool {
    let ext = lowercase_of(last_segment(payload.file_name@));
    if !type_supported(ext) {
        r matches Err(m) && m@ == unsupported_text(ext)
    } else {
        match token {
            Err(cause) => r matches Err(m) && m@ == "Failed to get Moetran token: "@ + cause@,
            Ok(None) => r matches Err(m) && m@ == "Missing Moetran token: Authorization required"@,
            Ok(Some(t)) => r matches Ok(call) && call.url@ == upload_url(
                base_url,
                payload.project_id@,
            ) && call.authorization@ == bearer_of(t@),
        }
    }
}

/// Prepares the upload of a page image to a project. `token` is the token of
/// the translation service, or the reason why it could not be had, and
/// `base_url` the address of the service.
pub fn upload_project_file(
    payload: &UploadProjectFileReq,
    token: Result<Option<String>, String>,
    base_url: &str,
) -> (r: Result<UploadCall, String>)
    ensures
        upload_prepared(*payload, token, base_url@, r),
{
    let ext = upload_extension(payload.file_name.as_str());
    match check_upload_type(ext.as_str()) {
        Err(m) => {
            return Err(m);
        },
        Ok(_) => {},
    }
    match token {
        Err(cause) => Err(prefixed("Failed to get Moetran token: ", cause.as_str())),
        Ok(None) => Err(String::from_str("Missing Moetran token: Authorization required")),
        Ok(Some(t)) => {
            let mut url = prefixed(base_url, "/v1/projects/");
            url.append(payload.project_id.as_str());
            url.append("/files");
            Ok(UploadCall { url, authorization: prefixed("Bearer ", t.as_str()) })
        },
    }
}

/// The body of a response as an error shows it: the body, or `<empty>` where
/// it could not be read.
pub open spec fn shown_body(body: Result<String, String>) -> Seq<char> {
    match body {
        Ok(text) => text@,
        Err(_) => "<empty>"@,
    }
}

/// What an upload returns, given how the request went: `sent` holds whether
/// the status was one of success, the status as text, and the body of the
/// response, or the reason why the request could not be sent.
pub open spec fn upload_outcome(sent: Result<(bool, String, Result<String, String>), String>) -> Result<
    (),
    Seq<char>,
> {
    match sent {
        Err(cause) => Err("File upload failed: "@ + cause@),
        Ok((success, status, body)) => if success {
            Ok(())
        } else {
            Err("File upload failed with status "@ + status@ + ": "@ + shown_body(body))
        },
    }
}

/// What an upload returns, given how the request went.
pub fn upload_result(sent: Result<(bool, String, Result<String, String>), String>) -> (r: Result<
    (),
    String,
>)
    ensures
        same_check(r, upload_outcome(sent)),
{
    match sent {
        Err(cause) => Err(prefixed("File upload failed: ", cause.as_str())),
        Ok((success, status, body)) => {
            if success {
                return Ok(());
            }
            let mut m = prefixed("File upload failed with status ", status.as_str());
            m.append(": ");
            match body {
                Ok(text) => {
                    m.append(text.as_str());
                },
                Err(_) => {
                    m.append("<empty>");
                },
            }
            Err(m)
        },
    }
}

} // verus!
