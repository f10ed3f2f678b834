//! Answers for the files of the dashboard: what to send for a file that was
//! found, and what for one that was not.
//!
//! Looking a file up is left to the caller. The media type of a file is the
//! guess that `mime_guess` makes from its name.

use vstd::prelude::*;

verus! {

/// The status that answers a request for a file that was found.
pub const OK: u16 = 200;

/// The status that answers a request for a file that does not exist.
pub const NOT_FOUND: u16 = 404;

/// The media type that the dashboard's front page is sent with.
pub const HTML: &'static str = "text/html; charset=utf-8";

/// What is sent for one file.
#[derive(Debug, Clone, PartialEq, Eq)]
pub struct AssetResponse {
    pub status: u16,
    pub content_type: Option<String>,
    pub body: Vec<u8>,
}

/// What is sent for the front page.
#[derive(Debug, Clone, PartialEq, Eq)]
pub struct PageResponse {
    pub status: u16,
    pub html: Option<String>,
}

/// The media type that `mime_guess` guesses for a file of this name, or
/// `application/octet-stream` where it has no guess.
pub uninterp spec fn guessed_media_type(path: Seq<char>) -> Seq<char>;

/// The text that `String::from_utf8_lossy` reads from these bytes.
pub uninterp spec fn lossy_text(bytes: Seq<u8>) -> Seq<char>;

/// `mime_guess::from_path` and, on its guess, `first_or_octet_stream`: the
/// first media type on record for the extension of `path`, or
/// `application/octet-stream`. The guess is made from the name alone, so it
/// is the same for the same name.
#[verifier::external_body]
fn media_type(path: &str) -> (guess: String)
    ensures
        guess@ == guessed_media_type(path@),
{
    let guess = mime_guess::from_path(path).first_or_octet_stream();
    let name: &str = guess.as_ref();
    name.to_owned()
}

/// `String::from_utf8_lossy`: the bytes as text, with a replacement
/// character for what is not UTF-8. The text is made from the bytes alone.
#[verifier::external_body]
fn lossy(bytes: &Vec<u8>) -> (text: String)
    ensures
        text@ == lossy_text(bytes@),
{
    String::from_utf8_lossy(bytes).into_owned()
}

/// The answer for a file that was found: its bytes, with its media type.
pub fn found(body: Vec<u8>, media_type: String) -> (res: AssetResponse)
    ensures
        res.status == OK,
        res.content_type == Some(media_type),
        res.body == body,
{
    AssetResponse { status: OK, content_type: Some(media_type), body }
}

/// The answer for a file that does not exist: `NOT_FOUND` and nothing else.
pub fn missing() -> (res: AssetResponse)
    ensures
        res.status == NOT_FOUND,
        res.content_type is None,
        res.body@.len() == 0,
{
    AssetResponse { status: NOT_FOUND, content_type: None, body: Vec::new() }
}

/// The answer for the front page: the text where the page was found,
/// `NOT_FOUND` where it was not.
pub fn front_page(text: Option<String>) -> (res: PageResponse)
    ensures
        res.html == text,
        res.status == if text is Some {
            OK
        } else {
            NOT_FOUND
        },
{
    match text {
        Some(html) => PageResponse { status: OK, html: Some(html) },
        None => PageResponse { status: NOT_FOUND, html: None },
    }
}

/// The answer to a request for the front page, given what the lookup of
/// `index.html` found: its bytes read as text, or `NOT_FOUND`.
pub fn serve_index(index: Option<Vec<u8>>) -> (res: PageResponse)
    ensures
        match index {
            Some(bytes) => {
                &&& res.status == OK
                &&& res.html matches Some(html)
                &&& html@ == lossy_text(bytes@)
            },
            None => res.status == NOT_FOUND && res.html is None,
        },
{
    match index {
        Some(bytes) => front_page(Some(lossy(&bytes))),
        None => front_page(None),
    }
}

/// The answer to a request for the file `path`, given what the lookup of
/// it found: its bytes with the media type guessed from its name, or
/// `NOT_FOUND`.
pub fn serve_asset(asset: Option<Vec<u8>>, path: &str) -> (res: AssetResponse)
    ensures
        match asset {
            Some(bytes) => {
                &&& res.status == OK
                &&& res.body == bytes
                &&& res.content_type matches Some(media_type)
                &&& media_type@ == guessed_media_type(path@)
            },
            None => res.status == NOT_FOUND && res.content_type is None && res.body@.len() == 0,
        },
{
    match asset {
        Some(bytes) => found(bytes, media_type(path)),
        None => missing(),
    }
}

} // verus!
