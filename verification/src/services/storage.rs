//! Where uploaded files go and what they are called.
//!
//! A stored file gets a fresh name: a random identifier and the extension of
//! what was uploaded. A logo must be an image of a known kind, and its
//! extension follows from its content type, not from its name.

use crate::ids::format_uuid;
use crate::ids::uuid_text;
use crate::text::eq_ignore_ascii_case;
use crate::text::eq_text;
use crate::text::same_ignoring_case;
use vstd::prelude::*;
use vstd::string::*;

verus! {

/// Largest upload accepted, in bytes.
pub const MAX_FILE_SIZE: usize = 2_097_152;

/// The type and subtype that the `mime` crate reads from a content type,
/// where it reads one.
pub uninterp spec fn parsed_mime(text: Seq<char>) -> Option<(Seq<char>, Seq<char>)>;

/// The extension that `std::path::Path::extension` finds in a file name,
/// where it finds one that is valid text.
pub uninterp spec fn path_extension(name: Seq<char>) -> Option<Seq<char>>;

/// Reads a content type with the `mime` crate's parser and hands back what
/// `Mime::type_` and `Mime::subtype` name. The result depends on the text
/// alone.
#[verifier::external_body]
pub(crate) fn parse_mime(text: &str) -> (parts: Option<(String, String)>)
    ensures
        match parsed_mime(text@) {
            Some((kind, subtype)) => parts is Some && parts->Some_0.0@ == kind
                && parts->Some_0.1@ == subtype,
            None => parts is None,
        },
{
    match text.parse::<mime::Mime>() {
        Ok(parsed) => Some(
            (parsed.type_().as_str().to_owned(), parsed.subtype().as_str().to_owned()),
        ),
        Err(_) => None,
    }
}

/// Finds the extension of a file name with `std::path::Path::extension`.
/// The result depends on the name alone.
#[verifier::external_body]
pub(crate) fn extension_of(name: &str) -> (extension: Option<String>)
    ensures
        match path_extension(name@) {
            Some(found) => extension is Some && extension->Some_0@ == found,
            None => extension is None,
        },
{
    std::path::Path::new(name).extension().and_then(|found| found.to_str()).map(
        |found| found.to_owned(),
    )
}

/// Draws a random identifier with `uuid::Uuid::new_v4`. Nothing is known of
/// the value.
#[verifier::external_body]
pub(crate) fn random_id() -> (id: u128) {
    uuid::Uuid::new_v4().as_u128()
}

/// The extension for a logo of the given type and subtype: `jpg`, `png`,
/// `gif` or `webp` for an image of that kind, nothing for anything else. The
/// type is compared without regard to ASCII case.
pub open spec fn logo_extension_of(kind: Seq<char>, subtype: Seq<char>) -> Option<Seq<char>> {
    if !same_ignoring_case(kind, "image"@) {
        None
    } else if subtype == "jpeg"@ {
        Some("jpg"@)
    } else if subtype == "png"@ {
        Some("png"@)
    } else if subtype == "gif"@ {
        Some("gif"@)
    } else if subtype == "webp"@ {
        Some("webp"@)
    } else {
        None
    }
}

/// Picks the extension for a logo of the given type and subtype.
pub fn logo_extension(kind: &str, subtype: &str) -> (extension: Option<String>)
    ensures
        match logo_extension_of(kind@, subtype@) {
            Some(found) => extension is Some && extension->Some_0@ == found,
            None => extension is None,
        },
{
    if !eq_ignore_ascii_case(kind, "image") {
        None
    } else if eq_text(subtype, "jpeg") {
        Some(String::from_str("jpg"))
    } else if eq_text(subtype, "png") {
        Some(String::from_str("png"))
    } else if eq_text(subtype, "gif") {
        Some(String::from_str("gif"))
    } else if eq_text(subtype, "webp") {
        Some(String::from_str("webp"))
    } else {
        None
    }
}

/// Tells whether a content type names an image that may serve as a logo.
pub fn is_valid_image(kind: &str, subtype: &str) -> (valid: bool)
    ensures
        valid == logo_extension_of(kind@, subtype@) is Some,
{
    logo_extension(kind, subtype).is_some()
}

/// Picks the extension for a logo from its content type as text. A content
/// type that cannot be read names no image.
pub fn logo_extension_for(content_type: &str) -> (extension: Option<String>)
    ensures
        match parsed_mime(content_type@) {
            Some((kind, subtype)) => match logo_extension_of(kind, subtype) {
                Some(found) => extension is Some && extension->Some_0@ == found,
                None => extension is None,
            },
            None => extension is None,
        },
{
    match parse_mime(content_type) {
        Some((kind, subtype)) => logo_extension(kind.as_str(), subtype.as_str()),
        None => None,
    }
}

/// What the header that names the course of an upload held.
pub enum CourseHeader<'a> {
    /// The request had no such header.
    Missing,
    /// The header was there and its value was not text.
    NotText,
    /// The header's value.
    Text(&'a str),
}

/// The course an upload is for, or the reason the upload is refused.
pub open spec fn upload_course(header: CourseHeader) -> Result<u128, Seq<char>> {
    match header {
        CourseHeader::Missing => Err("Missing X-Course-ID header"@),
        CourseHeader::NotText => Err("Invalid course ID format in header"@),
        CourseHeader::Text(text) => match crate::ids::parsed_uuid(text@) {
            Some(id) => Ok(id),
            None => Err("Invalid UUID format for course ID"@),
        },
    }
}

/// Reads the course an upload is for from its header. A header that is
/// missing, is not text, or is no UUID is bad input, each with its own
/// sentence.
pub fn course_of_upload(header: CourseHeader) -> (r: Result<u128, crate::errors::AppError>)
    ensures
        match upload_course(header) {
            Ok(id) => r is Ok && r->Ok_0 == id,
            Err(message) => r is Err && r->Err_0@ == crate::errors::ErrorView::BadClientData(
                message,
            ),
        },
{
    match header {
        CourseHeader::Missing => Err(
            crate::errors::AppError::BadClientData(String::from_str("Missing X-Course-ID header")),
        ),
        CourseHeader::NotText => Err(
            crate::errors::AppError::BadClientData(
                String::from_str("Invalid course ID format in header"),
            ),
        ),
        CourseHeader::Text(text) => match crate::ids::parse_uuid(text) {
            Some(id) => Ok(id),
            None => Err(
                crate::errors::AppError::BadClientData(
                    String::from_str("Invalid UUID format for course ID"),
                ),
            ),
        },
    }
}

/// The name a file is stored under: the identifier, a dot, the extension.
pub open spec fn stored_name(prefix: Seq<char>, id: u128, extension: Seq<char>) -> Seq<char> {
    prefix + uuid_text(id) + "."@ + extension
}

/// Builds the name a file is stored under.
pub fn file_name(prefix: &str, id: u128, extension: &str) -> (name: String)
    ensures
        name@ == stored_name(prefix@, id, extension@),
{
    let id_text = format_uuid(id);
    String::from_str(prefix).concat(id_text.as_str()).concat(".").concat(extension)
}

/// Adds the size of one more chunk to the size of an upload. The upload is
/// refused as soon as it exceeds [`MAX_FILE_SIZE`].
pub fn accept_chunk(received: usize, chunk: usize) -> (total: Option<usize>)
    ensures
        match total {
            Some(size) => size == received + chunk && size <= MAX_FILE_SIZE,
            None => received + chunk > MAX_FILE_SIZE,
        },
{
    if received > MAX_FILE_SIZE || chunk > MAX_FILE_SIZE - received {
        None
    } else {
        Some(received + chunk)
    }
}

/// The extension under which an upload named `filename` is stored: its
/// own, or `bin` where it has none.
pub open spec fn extension_or_bin(filename: Seq<char>) -> Seq<char> {
    match path_extension(filename) {
        Some(found) => found,
        None => "bin"@,
    }
}

/// Where files are kept and under which path they are served.
pub struct StorageService {
    pub upload_dir: String,
    pub public_path: String,
}

impl StorageService {
    /// A store that keeps files under `upload_dir` and serves them under
    /// `public_path`.
    pub fn new(upload_dir: String, public_path: String) -> (service: Self)
        ensures
            service.upload_dir@ == upload_dir@,
            service.public_path@ == public_path@,
    {
        StorageService { upload_dir, public_path }
    }

    /// The URL under which a stored file is served.
    pub fn public_url(&self, name: &str) -> (url: String)
        ensures
            url@ == self.public_path@ + "/"@ + name@,
    {
        self.public_path.clone().concat("/").concat(name)
    }

    /// The path at which a stored file is kept.
    pub fn file_path(&self, name: &str) -> (path: String)
        ensures
            path@ == self.upload_dir@ + "/"@ + name@,
    {
        self.upload_dir.clone().concat("/").concat(name)
    }

    /// Names a file that was uploaded as `filename`: a fresh identifier with
    /// the extension of the upload, or `bin` where it has none. The identifier
    /// is random.
    pub fn name_for_file(&self, filename: &str) -> (name: String)
        ensures
            exists|id: u128|
                name@ == #[trigger] stored_name(""@, id, extension_or_bin(filename@)),
    {
        let extension = match extension_of(filename) {
            Some(found) => found,
            None => String::from_str("bin"),
        };
        assert(extension@ == extension_or_bin(filename@));
        let id = random_id();
        let name = file_name("", id, extension.as_str());
        proof {
            assert(name@ == stored_name(""@, id, extension_or_bin(filename@)));
        }
        name
    }

    /// Names a logo from its type and subtype: `university-logo-`, a fresh
    /// identifier, and the extension of the image kind. Anything that is not
    /// an image of a known kind gets no name.
    pub fn name_for_logo(&self, kind: &str, subtype: &str) -> (name: Option<String>)
        ensures
            match logo_extension_of(kind@, subtype@) {
                Some(extension) => name is Some && exists|id: u128|
                    name->Some_0@ == #[trigger] stored_name("university-logo-"@, id, extension),
                None => name is None,
            },
    {
        match logo_extension(kind, subtype) {
            Some(extension) => {
                let id = random_id();
                let name = file_name("university-logo-", id, extension.as_str());
                proof {
                    assert(name@ == stored_name("university-logo-"@, id, extension@));
                }
                Some(name)
            },
            None => None,
        }
    }
}

/// The part of a URL after its last `/`; the whole URL where it has none.
pub fn last_segment(url: &str) -> (segment: String)
    ensures
        exists|cut: int|
            0 <= cut <= url@.len() && segment@ == url@.subrange(cut, url@.len() as int) && (cut
                > 0 ==> url@[cut - 1] == '/') && (forall|j: int|
                cut <= j < url@.len() ==> url@[j] != '/') && (cut == 0 ==> forall|j: int|
                0 <= j < url@.len() ==> url@[j] != '/'),
{
    let n: usize = url.unicode_len();
    let mut cut: usize = n;
    while cut > 0 && url.get_char(cut - 1) != '/'
        invariant
            n == url@.len(),
            cut <= n,
            forall|j: int| cut <= j < n ==> url@[j] != '/',
        decreases cut,
    {
        cut -= 1;
    }
    let segment = url.substring_char(cut, n).to_owned();
    proof {
        let c = cut as int;
        assert(segment@ == url@.subrange(c, url@.len() as int));
    }
    segment
}

} // verus!
