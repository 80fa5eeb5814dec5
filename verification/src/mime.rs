//! The media type of a file, by its first bytes or by its name.
use vstd::prelude::*;

verus! {

/// The extension of a file name as `std::path::Path::extension` tells it:
/// what follows the last dot of the path's final component, where that
/// component has a dot that is not its first character. What a component
/// is goes by the path syntax of the target that the library is built for.
pub uninterp spec fn extension_of(filename: Seq<char>) -> Option<Seq<char>>;

/// The media type that the table of the `cans` crate holds for an
/// extension, if it holds one.
pub uninterp spec fn mime_table(extension: Seq<char>) -> Option<Seq<char>>;

/// `Path::new(filename).extension()` of std, as text.
#[verifier::external_body]
fn path_extension(filename: &str) -> (r: Option<String>)
    ensures
        match r {
            Some(ext) => extension_of(filename@) == Some(ext@),
            None => extension_of(filename@) is None,
        },
{
    std::path::Path::new(filename).extension().and_then(|ext| ext.to_str()).map(|ext| ext.to_owned())
}

/// `cans::mime::set_mime_types`, which builds a fixed table from extension
/// to media type, and the look-up of one extension in it.
#[verifier::external_body]
fn table_entry(extension: &str) -> (r: Option<String>)
    ensures
        match r {
            Some(mime) => mime_table(extension@) == Some(mime@),
            None => mime_table(extension@) is None,
        },
{
    cans::mime::set_mime_types().get(extension).cloned()
}

/// The media type of a file of unknown content.
pub open spec fn octet_stream() -> Seq<char> {
    "application/octet-stream"@
}

/// The media type that a file's name stands for: the table's entry for the
/// name's extension, or `application/octet-stream` where the name has no
/// extension or the table has no entry for it.
pub open spec fn mime_of_name(filename: Seq<char>) -> Seq<char> {
    match extension_of(filename) {
        Some(ext) => match mime_table(ext) {
            Some(mime) => mime,
            None => octet_stream(),
        },
        None => octet_stream(),
    }
}

/// The media type that a file's content shows by its first bytes, where it
/// is at least twelve bytes long and begins with one of the known
/// signatures.
pub open spec fn mime_of_signature(data: Seq<u8>) -> Option<Seq<char>> {
    if data.len() < 12 {
        None
    } else if data[0] == 0xFF && data[1] == 0xD8 {
        Some("image/jpeg"@)
    } else if data[0] == 0x89 && data[1] == 0x50 && data[2] == 0x4E && data[3] == 0x47 {
        Some("image/png"@)
    } else if data[0] == 0x47 && data[1] == 0x49 && data[2] == 0x46 {
        Some("image/gif"@)
    } else if data[0] == 0x66 && data[1] == 0x74 && data[2] == 0x79 && data[3] == 0x70 {
        Some("video/mp4"@)
    } else {
        None
    }
}

/// The media type of a file: by its signature where it shows one, else by
/// its name.
pub open spec fn mime_of_file(data: Seq<u8>, filename: Seq<char>) -> Seq<char> {
    match mime_of_signature(data) {
        Some(mime) => mime,
        None => mime_of_name(filename),
    }
}

/// The media type that a file's name stands for.
pub fn get_mime_from_extension(filename: &str) -> (mime: String)
    ensures
        mime@ == mime_of_name(filename@),
{
    if let Some(ext) = path_extension(filename) {
        if let Some(mime) = table_entry(ext.as_str()) {
            return mime;
        }
    }
    "application/octet-stream".to_owned()
}

/// The media type of a file, by its first bytes where they show it, else
/// by its name.
pub fn get_mime_from_bytes(data: &[u8], filename: &str) -> (mime: String)
    ensures
        mime@ == mime_of_file(data@, filename@),
{
    if data.len() < 12 {
        return get_mime_from_extension(filename);
    }
    if data[0] == 0xFF && data[1] == 0xD8 {
        "image/jpeg".to_owned()
    } else if data[0] == 0x89 && data[1] == 0x50 && data[2] == 0x4E && data[3] == 0x47 {
        "image/png".to_owned()
    } else if data[0] == 0x47 && data[1] == 0x49 && data[2] == 0x46 {
        "image/gif".to_owned()
    } else if data[0] == 0x66 && data[1] == 0x74 && data[2] == 0x79 && data[3] == 0x70 {
        "video/mp4".to_owned()
    } else {
        get_mime_from_extension(filename)
    }
}

} // verus!
