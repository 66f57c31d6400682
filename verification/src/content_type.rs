//! Content types: parsing explicit MIME values and guessing one from a
//! file path's extension.

use vstd::prelude::*;
use core::str::FromStr;

verus! {

/// What the `mime` crate's parser makes of `s`: the text of the parsed
/// media type, or `None` when `s` is not a legal one.  The outcome is a
/// function of `s` alone.
pub uninterp spec fn spec_parsed_mime(s: Seq<char>) -> Option<Seq<char>>;

/// What `mime_guess` derives from the extension of a file path: the
/// text of the first known media type for it, or `None` when the path
/// has no extension with a known mapping.  The mapping table is fixed,
/// so the outcome is a function of the path alone.
pub uninterp spec fn spec_guessed_mime(path: Seq<char>) -> Option<Seq<char>>;

/// A validated MIME value, carried as its text.
#[derive(Debug)]
pub struct ContentType {
    pub value: String,
}

impl Clone for ContentType {
    fn clone(&self) -> (r: Self)
        ensures
            r == *self,
    {
        ContentType { value: self.value.clone() }
    }
}

/// Relies on `mime::Mime`'s `FromStr` and `Display`: parsing either
/// fails or yields a media type whose text depends on `s` alone.
#[verifier::external_body]
fn parse_mime_text(s: &str) -> (r: Option<String>)
    ensures
        (match (r, spec_parsed_mime(s@)) {
            (Some(t), Some(m)) => t@ == m,
            (None, None) => true,
            _ => false,
        }),
{
    match mime::Mime::from_str(s) {
        Ok(m) => Some(m.to_string()),
        Err(_) => None,
    }
}

/// Relies on `mime_guess::from_path` and `MimeGuess::first`: the guess
/// is looked up in a fixed table keyed by the path's extension.
#[verifier::external_body]
fn guess_mime_text(path: &str) -> (r: Option<String>)
    ensures
        (match (r, spec_guessed_mime(path@)) {
            (Some(t), Some(m)) => t@ == m,
            (None, None) => true,
            _ => false,
        }),
{
    mime_guess::from_path(path).first().map(|m| m.to_string())
}

impl ContentType {
    /// Parses an explicit MIME value.
    pub fn parse(s: &str) -> (r: Option<ContentType>)
        ensures
            (match (r, spec_parsed_mime(s@)) {
                (Some(ct), Some(m)) => ct.value@ == m,
                (None, None) => true,
                _ => false,
            }),
    {
        match parse_mime_text(s) {
            Some(t) => Some(ContentType { value: t }),
            None => None,
        }
    }

    /// Guesses a MIME value from a file path's extension.
    pub fn guess_from_path(path: &str) -> (r: Option<ContentType>)
        ensures
            (match (r, spec_guessed_mime(path@)) {
                (Some(ct), Some(m)) => ct.value@ == m,
                (None, None) => true,
                _ => false,
            }),
    {
        match guess_mime_text(path) {
            Some(t) => Some(ContentType { value: t }),
            None => None,
        }
    }
}

} // verus!
