//! Which files carry text worth indexing.
use vstd::prelude::*;

verus! {

/// The extension that `std::path::Path::extension` finds in a path given as text:
/// the part of the final component after its last dot, if there is one that does
/// not start the component.
pub uninterp spec fn extension_of(path: Seq<char>) -> Option<Seq<char>>;

/// Relies on `std::path::Path::extension` for the extension of the final component;
/// `OsStr::to_str` only converts back, as the path was built from a `str`.
#[verifier::external_body]
fn path_extension(path: &str) -> (r: Option<String>)
    ensures
        r is Some <==> extension_of(path@) is Some,
        r is Some ==> extension_of(path@) == Some(r->Some_0@),
{
    std::path::Path::new(path).extension().and_then(|e| e.to_str()).map(|e| e.to_string())
}

/// Extensions whose files are read verbatim as text: plain text and Markdown.
pub open spec fn is_text_extension(ext: Seq<char>) -> bool {
    ext == "txt"@ || ext == "md"@
}

/// A path whose content is extracted; every other path yields no text.
pub open spec fn is_extractable(path: Seq<char>) -> bool {
    match extension_of(path) {
        Some(ext) => is_text_extension(ext),
        None => false,
    }
}

/// Whether `ext` (without its dot) is one of the recognized text extensions.
pub fn is_text_extension_name(ext: &str) -> (r: bool)
    ensures
        r == is_text_extension(ext@),
{
    let e = ext.to_owned();
    e == String::from_str("txt") || e == String::from_str("md")
}

/// Whether the file at `path` is read for text; for any other path extraction
/// yields the empty text, which callers treat as nothing to index.
pub fn should_extract(path: &str) -> (r: bool)
    ensures
        r == is_extractable(path@),
{
    match path_extension(path) {
        Some(ext) => is_text_extension_name(ext.as_str()),
        None => false,
    }
}

} // verus!
