//! Choosing the content type of a served file: by the extension of its name
//! where the table of known extensions has it, else by a look at its bytes.

use vstd::prelude::*;

verus! {

/// How many bytes from the start of a file are looked at to tell text from
/// binary data.
pub const SNIFF_LEN: usize = 1024;

/// The MIME type that `mime_guess` has for the extension of the path `path`,
/// if it has one.
pub uninterp spec fn guessed_mime_type(path: Seq<char>) -> Option<Seq<char>>;

/// `mime_guess::guess_mime_type_opt`: the MIME type that the crate's table
/// has for the extension of `path`, written out as text, or nothing where the
/// path has no extension or the table has none for it. The result depends on
/// `path` alone.
#[verifier::external_body]
pub(crate) fn guess_mime_type_opt(path: &str) -> (r: Option<String>)
    ensures
        match r {
            Some(mime) => guessed_mime_type(path@) == Some(mime@),
            None => guessed_mime_type(path@) is None,
        },
{
    match mime_guess::guess_mime_type_opt(path) {
        Some(mime) => Some(format!("{}", mime)),
        None => None,
    }
}

/// The part of `contents` that is looked at to tell text from binary data.
pub open spec fn first_chunk(contents: Seq<u8>) -> Seq<u8> {
    if contents.len() <= SNIFF_LEN {
        contents
    } else {
        contents.take(SNIFF_LEN as int)
    }
}

/// The content type that a look at `contents` gives: binary data where the
/// first chunk holds a zero byte, plain text where it holds none.
pub open spec fn sniffed_mime_type(contents: Seq<u8>) -> Seq<char> {
    if first_chunk(contents).contains(0u8) {
        "application/octet-stream"@
    } else {
        "text/plain"@
    }
}

/// The content type of a file with the bytes `contents` for whose name the
/// table of extensions gave `guess`.
pub open spec fn content_type_of(guess: Option<Seq<char>>, contents: Seq<u8>) -> Seq<char> {
    match guess {
        Some(mime) => mime,
        None => sniffed_mime_type(contents),
    }
}

/// The view of an optional string.
pub open spec fn text_of(s: Option<String>) -> Option<Seq<char>> {
    match s {
        Some(text) => Some(text@),
        None => None,
    }
}

/// Tells text from binary data by the first chunk of `contents`.
pub fn sniff_mime_type(contents: &Vec<u8>) -> (r: String)
    ensures
        r@ == sniffed_mime_type(contents@),
{
    let end: usize = if contents.len() <= SNIFF_LEN {
        contents.len()
    } else {
        SNIFF_LEN
    };
    let mut i: usize = 0;
    while i < end
        invariant
            i <= end,
            end == first_chunk(contents@).len(),
            end <= contents.len(),
            forall|j: int| 0 <= j < i ==> first_chunk(contents@)[j] != 0u8,
        decreases end - i,
    {
        if contents[i] == 0 {
            assert(first_chunk(contents@)[i as int] == 0u8);
            return "application/octet-stream".to_string();
        }
        i += 1;
    }
    "text/plain".to_string()
}

/// The content type of a file with the bytes `contents` for whose name the
/// table of extensions gave `guess`.
pub fn content_type(guess: Option<String>, contents: &Vec<u8>) -> (r: String)
    ensures
        r@ == content_type_of(text_of(guess), contents@),
{
    match guess {
        Some(mime) => mime,
        None => sniff_mime_type(contents),
    }
}

} // verus!
