use vstd::prelude::*;

use crate::error::ImageError;

verus! {

/// The encodings an image file can be decoded from.
#[derive(Clone, Copy, Debug, PartialEq, Eq, Structural)]
pub enum ImageFormat {
    Bmp,
    Jpeg,
    Png,
}

/// What `str::to_lowercase` makes of a string.
pub uninterp spec fn lower_of(s: Seq<char>) -> Seq<char>;

/// Every character of `s` is ASCII.
pub open spec fn is_ascii_seq(s: Seq<char>) -> bool {
    forall|i: int| 0 <= i < s.len() ==> (s[i] as u32) < 128
}

/// The ASCII lower case of a character code: `A` to `Z` become `a` to `z`,
/// every other code is kept.
pub open spec fn ascii_lower_code(c: u32) -> u32 {
    if 65 <= c && c <= 90 {
        (c + 32) as u32
    } else {
        c
    }
}

/// `l` is `s` with each ASCII capital letter made small.
pub open spec fn ascii_lowered(s: Seq<char>, l: Seq<char>) -> bool {
    &&& l.len() == s.len()
    &&& forall|i: int| 0 <= i < s.len() ==> (l[i] as u32) == ascii_lower_code(s[i] as u32)
}

/// `a` and `b` differ at most in the case of ASCII letters.
pub open spec fn same_ignoring_ascii_case(a: Seq<char>, b: Seq<char>) -> bool {
    &&& a.len() == b.len()
    &&& forall|i: int|
        0 <= i < a.len() ==> ascii_lower_code(a[i] as u32) == ascii_lower_code(b[i] as u32)
}

/// The format that a lower-cased extension names, if any.
pub open spec fn format_named(ext: Seq<char>) -> Option<ImageFormat> {
    if ext == "bmp"@ {
        Some(ImageFormat::Bmp)
    } else if ext == "jpg"@ || ext == "jpeg"@ {
        Some(ImageFormat::Jpeg)
    } else if ext == "png"@ {
        Some(ImageFormat::Png)
    } else {
        None
    }
}

/// Relies on `str::to_lowercase`: the Unicode lower case of `s`, which on
/// ASCII text makes `A` to `Z` small and keeps every other character.
#[verifier::external_body]
fn lowercase(s: &str) -> (r: String)
    ensures
        r@ == lower_of(s@),
        is_ascii_seq(s@) ==> ascii_lowered(s@, r@),
{
    s.to_lowercase()
}

/// Whether `s` is the word `w`.
fn is_word(s: &str, w: &str) -> (r: bool)
    ensures
        r == (s@ == w@),
{
    let a: String = s.to_owned();
    let b: String = w.to_owned();
    a == b
}

/// The format that an already lower-cased extension names. Fails with
/// `UnsupportedFormat`, holding the extension, when it names none.
pub fn format_of_lowercase(ext: &str) -> (r: Result<ImageFormat, ImageError>)
    ensures
        format_named(ext@) is Some ==> r == Ok::<ImageFormat, ImageError>(
            format_named(ext@)->Some_0,
        ),
        format_named(ext@) is None ==> (r is Err && r->Err_0 is UnsupportedFormat
            && r->Err_0->UnsupportedFormat_0@ == ext@),
{
    if is_word(ext, "bmp") {
        Ok(ImageFormat::Bmp)
    } else if is_word(ext, "jpg") || is_word(ext, "jpeg") {
        Ok(ImageFormat::Jpeg)
    } else if is_word(ext, "png") {
        Ok(ImageFormat::Png)
    } else {
        Err(ImageError::UnsupportedFormat(ext.to_owned()))
    }
}

/// The format that a file's extension selects, compared after lower-casing.
/// `extension` is `None` where the file name has no extension and
/// `Some(None)` where the extension is not valid text. Fails with
/// `UnsupportedFormat` (holding an empty text) for a missing extension, with
/// `InvalidPath` for one that is not text, and as `format_of_lowercase` does
/// for the lower-cased extension otherwise. An ASCII extension is lower-cased
/// letter by letter, so the comparison ignores the case of its letters.
pub fn format_of_extension(extension: Option<Option<&str>>) -> (r: Result<ImageFormat, ImageError>)
    ensures
        extension is None ==> (r is Err && r->Err_0 is UnsupportedFormat
            && r->Err_0->UnsupportedFormat_0@ == Seq::<char>::empty()),
        extension == Some(None::<&str>) ==> r == Err::<ImageFormat, ImageError>(
            ImageError::InvalidPath,
        ),
        extension matches Some(Some(e)) ==> {
            let l = lower_of(e@);
            &&& format_named(l) is Some ==> r == Ok::<ImageFormat, ImageError>(
                format_named(l)->Some_0,
            )
            &&& format_named(l) is None ==> (r is Err && r->Err_0 is UnsupportedFormat
                && r->Err_0->UnsupportedFormat_0@ == l)
            &&& is_ascii_seq(e@) ==> ascii_lowered(e@, l)
        },
{
    match extension {
        None => Err(ImageError::UnsupportedFormat(String::new())),
        Some(None) => Err(ImageError::InvalidPath),
        Some(Some(e)) => {
            let l = lowercase(e);
            format_of_lowercase(l.as_str())
        },
    }
}

/// Format dispatch ignores the case of ASCII letters: two ASCII extensions
/// that differ only in that way lower-case to the same text, and so select
/// the same format or are refused alike.
pub proof fn lemma_dispatch_ignores_ascii_case(
    a: Seq<char>,
    b: Seq<char>,
    la: Seq<char>,
    lb: Seq<char>,
)
    requires
        is_ascii_seq(a),
        is_ascii_seq(b),
        same_ignoring_ascii_case(a, b),
        ascii_lowered(a, la),
        ascii_lowered(b, lb),
    ensures
        la == lb,
        format_named(la) == format_named(lb),
{
    assert forall|i: int| 0 <= i < la.len() implies la[i] == lb[i] by {
        assert((la[i] as u32) == (lb[i] as u32));
        vstd::utf8::char_u32_cast(la[i], la[i] as u32);
        vstd::utf8::char_u32_cast(lb[i], lb[i] as u32);
    }
    assert(la =~= lb);
}

} // verus!
