//! Form-urlencoded query pairs.
//!
//! Request URLs are assembled in verified code as plain string
//! concatenation; only the percent-encoding of a single `key=value` pair is
//! delegated to the `url` crate's form-urlencoded serializer.

use vstd::prelude::*;

verus! {

/// What the form-urlencoded serializer makes of one string: bytes outside
/// the unreserved set are percent-encoded, a space becomes a plus.
pub uninterp spec fn form_urlencoded_of(s: Seq<char>) -> Seq<char>;

/// The characters that the form-urlencoded serializer passes through
/// unchanged: ASCII alphanumerics and `*`, `-`, `.`, `_`.
pub open spec fn is_unreserved_char(c: char) -> bool {
    ||| 48 <= c as u32 <= 57
    ||| 65 <= c as u32 <= 90
    ||| 97 <= c as u32 <= 122
    ||| c == '*'
    ||| c == '-'
    ||| c == '.'
    ||| c == '_'
}

/// Every character of the sequence is passed through unchanged by the
/// form-urlencoded serializer.
pub open spec fn all_unreserved(s: Seq<char>) -> bool {
    forall|i: int| 0 <= i < s.len() ==> is_unreserved_char(s[i])
}

/// One `key=value` pair as the serializer writes it into a query string.
pub open spec fn encoded_pair(key: Seq<char>, value: Seq<char>) -> Seq<char> {
    form_urlencoded_of(key) + seq!['='] + form_urlencoded_of(value)
}

/// Relies on url::form_urlencoded::Serializer (new, append_pair, finish):
/// appending one pair to an empty serializer writes the encoded key, an
/// equals sign, and the encoded value.  The encoding of a string depends
/// on its characters alone, and a string of unreserved characters is
/// written unchanged.
#[verifier::external_body]
pub(crate) fn encode_pair(key: &str, value: &str) -> (r: String)
    ensures
        r@ == form_urlencoded_of(key@) + seq!['='] + form_urlencoded_of(value@),
        all_unreserved(key@) && all_unreserved(value@) ==> r@ == key@ + seq!['='] + value@,
{
    let mut serializer = url::form_urlencoded::Serializer::new(String::new());
    serializer.append_pair(key, value);
    serializer.finish()
}

} // verus!
