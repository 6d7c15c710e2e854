//! Extraction strategy selection by file extension, case-insensitively:
//! `pdf` goes to the PDF extractor, the raster formats go to the image
//! extractor, anything else is refused.

use vstd::prelude::*;
use vstd::string::*;
use crate::errors::ExtractionError;

verus! {

/// `c` with an ASCII capital letter lowered; every other character is
/// left alone.
pub open spec fn lower_char(c: char) -> char {
    if 0x41 <= (c as u32) && (c as u32) <= 0x5a {
        (((c as u32) + 0x20) as u8) as char
    } else {
        c
    }
}

/// `s` with its ASCII capital letters lowered.
pub open spec fn ascii_lower(s: Seq<char>) -> Seq<char> {
    s.map_values(|c: char| lower_char(c))
}

/// Whether `s`, lowered, equals `pat` (which callers pass already lowered).
pub fn eq_ignore_ascii_case(s: &str, pat: &str) -> (r: bool)
    ensures
        r == (ascii_lower(s@) == pat@),
{
    let n = s.unicode_len();
    let m = pat.unicode_len();
    if n != m {
        proof {
            assert(ascii_lower(s@).len() == s@.len());
        }
        return false;
    }
    let mut i: usize = 0;
    while i < n
        invariant
            n == s@.len(),
            n == pat@.len(),
            i <= n,
            forall|j: int| 0 <= j < i ==> ascii_lower(s@)[j] == pat@[j],
        decreases n - i,
    {
        let c = s.get_char(i);
        let u = c as u32;
        let lc: char = if 0x41 <= u && u <= 0x5a {
            ((u + 0x20) as u8) as char
        } else {
            c
        };
        if lc != pat.get_char(i) {
            proof {
                assert(ascii_lower(s@)[i as int] == lower_char(s@[i as int]));
            }
            return false;
        }
        i += 1;
    }
    proof {
        assert(ascii_lower(s@) =~= pat@);
    }
    true
}

/// The two extraction strategies an extension can select.
#[derive(Clone, Copy, PartialEq, Eq, Structural, Debug)]
pub enum ExtractorKind {
    Pdf,
    Image,
}

/// Maps a file extension, case-insensitively, to its extractor: `pdf` to
/// the PDF extractor, `jpg`/`jpeg`/`png`/`webp` to the image extractor;
/// every other extension is unsupported and touches nothing.
pub fn select_extractor(extension: &str) -> (r: Result<ExtractorKind, ExtractionError>)
    ensures
        r == Ok::<ExtractorKind, ExtractionError>(ExtractorKind::Pdf) <==> ascii_lower(extension@)
            == "pdf"@,
        r == Ok::<ExtractorKind, ExtractionError>(ExtractorKind::Image) <==> (ascii_lower(
            extension@,
        ) == "jpg"@ || ascii_lower(extension@) == "jpeg"@ || ascii_lower(extension@) == "png"@
            || ascii_lower(extension@) == "webp"@),
        r is Err ==> (r matches Err(ExtractionError::UnsupportedFormat { extension: e }) && e@
            == extension@),
{
    proof {
        reveal_strlit("pdf");
        reveal_strlit("jpg");
        reveal_strlit("jpeg");
        reveal_strlit("png");
        reveal_strlit("webp");
        assert("pdf"@[0] != "jpg"@[0]);
        assert("pdf"@.len() != "jpeg"@.len());
        assert("pdf"@[1] != "png"@[1]);
        assert("pdf"@[0] != "webp"@[0]);
    }
    if eq_ignore_ascii_case(extension, "pdf") {
        Ok(ExtractorKind::Pdf)
    } else if eq_ignore_ascii_case(extension, "jpg") || eq_ignore_ascii_case(extension, "jpeg")
        || eq_ignore_ascii_case(extension, "png") || eq_ignore_ascii_case(extension, "webp") {
        Ok(ExtractorKind::Image)
    } else {
        Err(ExtractionError::UnsupportedFormat { extension: extension.to_owned() })
    }
}

} // verus!
