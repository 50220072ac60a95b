//! Media-type inference from a path-like string.
//!
//! The extension — whatever follows the final `.` of the final path
//! segment — is extracted by verified code; mapping an extension to a media
//! type is delegated to the `mime_guess` table behind a trusted wrapper.

use vstd::prelude::*;
use vstd::string::StrSliceExecFns;

verus! {

/// Index of the last `.` or `/` in `s`, or -1 when neither occurs.
pub open spec fn last_sep_index(s: Seq<char>) -> int
    decreases s.len(),
{
    if s.len() == 0 {
        -1
    } else if s.last() == '.' || s.last() == '/' {
        s.len() - 1
    } else {
        last_sep_index(s.drop_last())
    }
}

/// The extension of a path-like string: what follows the final `.` of the
/// final path segment, or empty when that segment has no dot.
pub open spec fn ext_of(s: Seq<char>) -> Seq<char> {
    let i = last_sep_index(s);
    if 0 <= i < s.len() && s[i] == '.' {
        s.subrange(i + 1, s.len() as int)
    } else {
        Seq::empty()
    }
}

/// The media type that the `mime_guess` table associates with an extension,
/// with `application/octet-stream` for the empty or an unknown extension.
pub uninterp spec fn mime_of(ext: Seq<char>) -> Seq<char>;

/// Relies on `mime_guess::from_ext` followed by
/// `MimeGuess::first_or_octet_stream`: the extension is looked up
/// case-insensitively in a fixed table, the first media type listed for it is
/// returned, and an empty or unknown extension yields
/// `application/octet-stream`. The result is a function of the extension
/// alone.
#[verifier::external_body]
pub(crate) fn media_type_for_ext(ext: &str) -> (r: String)
    ensures
        r@ == mime_of(ext@),
        ext@.len() == 0 ==> r@ == "application/octet-stream"@,
{
    mime_guess::from_ext(ext).first_or_octet_stream().to_string()
}

/// Where the last separator stands, everything after it is neither `.` nor `/`.
proof fn lemma_last_sep_found(s: Seq<char>, i: int)
    requires
        0 <= i < s.len(),
        s[i] == '.' || s[i] == '/',
        forall|k: int| i < k < s.len() ==> s[k] != '.' && s[k] != '/',
    ensures
        last_sep_index(s) == i,
    decreases s.len(),
{
    if i == s.len() - 1 {
    } else {
        assert(s.last() != '.' && s.last() != '/');
        assert(s.drop_last()[i] == s[i]);
        assert(forall|k: int|
            i < k < s.drop_last().len() ==> s.drop_last()[k] != '.' && s.drop_last()[k] != '/');
        lemma_last_sep_found(s.drop_last(), i);
    }
}

/// A string without `.` or `/` has no separator.
proof fn lemma_last_sep_absent(s: Seq<char>)
    requires
        forall|k: int| 0 <= k < s.len() ==> s[k] != '.' && s[k] != '/',
    ensures
        last_sep_index(s) == -1,
    decreases s.len(),
{
    if s.len() == 0 {
    } else {
        assert(forall|k: int|
            0 <= k < s.drop_last().len() ==> s.drop_last()[k] != '.' && s.drop_last()[k] != '/');
        lemma_last_sep_absent(s.drop_last());
    }
}

/// The extension of a path-like string, verbatim (case is preserved).
pub fn extension_of(src: &str) -> (r: String)
    ensures
        r@ == ext_of(src@),
{
    let len = src.unicode_len();
    let mut j: usize = len;
    while j > 0
        invariant
            j <= len,
            len == src@.len(),
            forall|k: int| j <= k < src@.len() ==> src@[k] != '.' && src@[k] != '/',
        decreases j,
    {
        let c = src.get_char(j - 1);
        if c == '.' {
            proof {
                lemma_last_sep_found(src@, j - 1);
            }
            let ext = src.substring_char(j, len);
            let r = ext.to_owned();
            proof {
                assert(r@ =~= ext_of(src@));
            }
            return r;
        }
        if c == '/' {
            proof {
                lemma_last_sep_found(src@, j - 1);
            }
            let r = String::new();
            proof {
                assert(r@ =~= ext_of(src@));
            }
            return r;
        }
        j = j - 1;
    }
    proof {
        lemma_last_sep_absent(src@);
    }
    let r = String::new();
    proof {
        assert(r@ =~= ext_of(src@));
    }
    r
}

} // verus!
