//! Validation of the NFT name and URI arguments, run before any downstream
//! call is assembled.

use vstd::prelude::*;
use vstd::utf8::encode_utf8;
use vstd::string::StrSliceExecFns;
use crate::error::BubblegumCpiError;

verus! {

/// The metadata program's maximum name length, in bytes.
pub const MAX_NAME_LENGTH: usize = 32;

/// The metadata program's maximum URI length, in bytes.
pub const MAX_URI_LENGTH: usize = 200;

/// `c` has the Unicode `White_Space` property, the set of characters that
/// trimming removes.
pub open spec fn is_whitespace_char(c: char) -> bool {
    ||| c == '\u{0009}'
    ||| c == '\u{000A}'
    ||| c == '\u{000B}'
    ||| c == '\u{000C}'
    ||| c == '\u{000D}'
    ||| c == '\u{0020}'
    ||| c == '\u{0085}'
    ||| c == '\u{00A0}'
    ||| c == '\u{1680}'
    ||| c == '\u{2000}'
    ||| c == '\u{2001}'
    ||| c == '\u{2002}'
    ||| c == '\u{2003}'
    ||| c == '\u{2004}'
    ||| c == '\u{2005}'
    ||| c == '\u{2006}'
    ||| c == '\u{2007}'
    ||| c == '\u{2008}'
    ||| c == '\u{2009}'
    ||| c == '\u{200A}'
    ||| c == '\u{2028}'
    ||| c == '\u{2029}'
    ||| c == '\u{202F}'
    ||| c == '\u{205F}'
    ||| c == '\u{3000}'
}

/// Whether `c` has the Unicode `White_Space` property.
pub fn is_whitespace(c: char) -> (r: bool)
    ensures
        r == is_whitespace_char(c),
{
    c == '\u{0009}' || c == '\u{000A}' || c == '\u{000B}' || c == '\u{000C}'
        || c == '\u{000D}' || c == '\u{0020}' || c == '\u{0085}' || c == '\u{00A0}'
        || c == '\u{1680}' || c == '\u{2000}' || c == '\u{2001}' || c == '\u{2002}'
        || c == '\u{2003}' || c == '\u{2004}' || c == '\u{2005}' || c == '\u{2006}'
        || c == '\u{2007}' || c == '\u{2008}' || c == '\u{2009}' || c == '\u{200A}'
        || c == '\u{2028}' || c == '\u{2029}' || c == '\u{202F}' || c == '\u{205F}'
        || c == '\u{3000}'
}

/// How many whitespace characters `s` starts with.
pub open spec fn leading_ws_count(s: Seq<char>) -> int
    decreases s.len(),
{
    if s.len() == 0 || !is_whitespace_char(s[0]) {
        0
    } else {
        1 + leading_ws_count(s.subrange(1, s.len() as int))
    }
}

/// How many whitespace characters `s` ends with.
pub open spec fn trailing_ws_count(s: Seq<char>) -> int
    decreases s.len(),
{
    if s.len() == 0 || !is_whitespace_char(s[s.len() - 1]) {
        0
    } else {
        1 + trailing_ws_count(s.subrange(0, s.len() - 1))
    }
}

/// `s` with leading and trailing whitespace removed.
pub open spec fn trimmed(s: Seq<char>) -> Seq<char> {
    let a = s.subrange(leading_ws_count(s), s.len() as int);
    a.subrange(0, a.len() - trailing_ws_count(a))
}

proof fn lemma_leading_ws_count_is(s: Seq<char>, i: int)
    requires
        0 <= i <= s.len(),
        forall|j: int| 0 <= j < i ==> is_whitespace_char(s[j]),
        i < s.len() ==> !is_whitespace_char(s[i]),
    ensures
        leading_ws_count(s) == i,
    decreases i,
{
    if i > 0 {
        lemma_leading_ws_count_is(s.subrange(1, s.len() as int), i - 1);
    }
}

proof fn lemma_trailing_ws_count_is(s: Seq<char>, k: int)
    requires
        0 <= k <= s.len(),
        forall|j: int| s.len() - k <= j < s.len() ==> is_whitespace_char(s[j]),
        k < s.len() ==> !is_whitespace_char(s[s.len() - k - 1]),
    ensures
        trailing_ws_count(s) == k,
    decreases k,
{
    if k > 0 {
        lemma_trailing_ws_count_is(s.subrange(0, s.len() - 1), k - 1);
    }
}

proof fn lemma_leading_ws_count_bounds(s: Seq<char>)
    ensures
        0 <= leading_ws_count(s) <= s.len(),
    decreases s.len(),
{
    if s.len() > 0 && is_whitespace_char(s[0]) {
        lemma_leading_ws_count_bounds(s.subrange(1, s.len() as int));
    }
}

proof fn lemma_trailing_ws_count_bounds(s: Seq<char>)
    ensures
        0 <= trailing_ws_count(s) <= s.len(),
    decreases s.len(),
{
    if s.len() > 0 && is_whitespace_char(s[s.len() - 1]) {
        lemma_trailing_ws_count_bounds(s.subrange(0, s.len() - 1));
    }
}

proof fn lemma_encode_utf8_concat(a: Seq<char>, b: Seq<char>)
    ensures
        encode_utf8(a + b) == encode_utf8(a) + encode_utf8(b),
    decreases a.len(),
{
    if a.len() == 0 {
        assert(a + b =~= b);
        assert(encode_utf8(a) + encode_utf8(b) =~= encode_utf8(b));
    } else {
        assert((a + b).drop_first() =~= a.drop_first() + b);
        lemma_encode_utf8_concat(a.drop_first(), b);
        assert(encode_utf8(a + b) =~= encode_utf8(a) + encode_utf8(b));
    }
}

/// The name with surrounding whitespace removed.
pub fn trim_name(name: &str) -> (r: &str)
    ensures
        r@ == trimmed(name@),
{
    let n = name.unicode_len();
    let mut i: usize = 0;
    while i < n
        invariant
            n == name@.len(),
            i <= n,
            forall|j: int| 0 <= j < i ==> is_whitespace_char(name@[j]),
        ensures
            n == name@.len(),
            i <= n,
            forall|j: int| 0 <= j < i ==> is_whitespace_char(name@[j]),
            i < n ==> !is_whitespace_char(name@[i as int]),
        decreases n - i,
    {
        if !is_whitespace(name.get_char(i)) {
            break;
        }
        i += 1;
    }
    let mut j: usize = n;
    while j > i
        invariant
            n == name@.len(),
            i <= j <= n,
            forall|k: int| j <= k < n ==> is_whitespace_char(name@[k]),
        ensures
            i <= j <= n,
            forall|k: int| j <= k < n ==> is_whitespace_char(name@[k]),
            j > i ==> !is_whitespace_char(name@[j - 1]),
        decreases j,
    {
        if !is_whitespace(name.get_char(j - 1)) {
            break;
        }
        j -= 1;
    }
    proof {
        lemma_leading_ws_count_is(name@, i as int);
        let a = name@.subrange(i as int, name@.len() as int);
        if i < n {
            assert(j > i);
            lemma_trailing_ws_count_is(a, n - j);
        } else {
            lemma_trailing_ws_count_is(a, 0);
        }
        assert(trimmed(name@) =~= name@.subrange(i as int, j as int));
    }
    name.substring_char(i, j)
}

/// A name is acceptable when, after trimming whitespace, it is non-empty and
/// its byte length is at most the metadata program's maximum name length.
pub open spec fn name_ok(s: Seq<char>) -> bool {
    trimmed(s).len() > 0 && encode_utf8(trimmed(s)).len() <= MAX_NAME_LENGTH
}

/// Checks the NFT name: trims whitespace, then rejects a name that is empty
/// or longer than the metadata program's maximum name length.
pub fn validate_name(name: &str) -> (r: Result<(), BubblegumCpiError>)
    ensures
        r is Ok <==> name_ok(name@),
        r matches Err(e) ==> e == BubblegumCpiError::InvalidNftName,
{
    let t = trim_name(name);
    if t.unicode_len() == 0 {
        return Err(BubblegumCpiError::InvalidNftName);
    }
    if t.as_bytes().len() > MAX_NAME_LENGTH {
        return Err(BubblegumCpiError::InvalidNftName);
    }
    Ok(())
}

/// A name of only whitespace characters, or the empty name, is never
/// acceptable: it trims to nothing. By the contract of [`validate_name`],
/// such a name is rejected with the invalid-name error.
pub proof fn lemma_whitespace_only_name_rejected(s: Seq<char>)
    requires
        forall|i: int| 0 <= i < s.len() ==> is_whitespace_char(s[i]),
    ensures
        !name_ok(s),
{
    lemma_leading_ws_count_is(s, s.len() as int);
    let a = s.subrange(s.len() as int, s.len() as int);
    lemma_trailing_ws_count_is(a, 0);
    assert(trimmed(s).len() == 0);
}

/// Trimming never lengthens a name: every name within the maximum byte
/// length that still holds a character after trimming is accepted.
pub proof fn lemma_short_nonempty_name_accepted(s: Seq<char>)
    requires
        encode_utf8(s).len() <= MAX_NAME_LENGTH,
        trimmed(s).len() > 0,
    ensures
        name_ok(s),
{
    lemma_leading_ws_count_bounds(s);
    let i = leading_ws_count(s);
    let a = s.subrange(i, s.len() as int);
    lemma_trailing_ws_count_bounds(a);
    let k = trailing_ws_count(a);
    let t = trimmed(s);
    let prefix = s.subrange(0, i);
    let suffix = s.subrange(s.len() - k, s.len() as int);
    assert(suffix =~= a.subrange(a.len() - k, a.len() as int));
    assert(s =~= prefix + (t + suffix));
    lemma_encode_utf8_concat(prefix, t + suffix);
    lemma_encode_utf8_concat(t, suffix);
    assert(encode_utf8(s) == encode_utf8(prefix) + (encode_utf8(t) + encode_utf8(suffix)));
}

/// Whether the string parses as a well-formed URI; a function of the string
/// alone.
pub uninterp spec fn uri_parses(s: Seq<char>) -> bool;

/// Relies on `url::Url::parse`: whether a string parses as a well-formed
/// absolute URI is decided by the string's characters alone.
#[verifier::external_body]
fn uri_is_well_formed(uri: &str) -> (r: bool)
    ensures
        r == uri_parses(uri@),
{
    url::Url::parse(uri).is_ok()
}

/// A URI is within the metadata program's maximum URI length, in bytes.
pub open spec fn uri_len_ok(s: Seq<char>) -> bool {
    encode_utf8(s).len() <= MAX_URI_LENGTH
}

/// A URI is acceptable when it is within the length bound and well-formed.
pub open spec fn uri_ok(s: Seq<char>) -> bool {
    uri_len_ok(s) && uri_parses(s)
}

/// A URI longer than the maximum is never acceptable, even when it is
/// well-formed. By the contract of [`validate_uri`], such a URI is rejected
/// as too long, whether or not it parses.
pub proof fn lemma_overlong_uri_rejected(s: Seq<char>)
    requires
        encode_utf8(s).len() > MAX_URI_LENGTH,
    ensures
        !uri_ok(s),
        !uri_len_ok(s),
{
}

/// A URI within the length bound is acceptable exactly when it is
/// well-formed. By the contract of [`validate_uri`], a short malformed URI
/// is rejected as invalid, and a short well-formed one is accepted.
pub proof fn lemma_short_uri_ok_iff_well_formed(s: Seq<char>)
    requires
        encode_utf8(s).len() <= MAX_URI_LENGTH,
    ensures
        uri_ok(s) <==> uri_parses(s),
{
}

/// Checks the URI: the length bound is checked first, so an over-long URI is
/// rejected as too long even when it is also malformed; a URI within the
/// bound that does not parse is rejected as invalid.
pub fn validate_uri(uri: &str) -> (r: Result<(), BubblegumCpiError>)
    ensures
        r is Ok <==> uri_ok(uri@),
        r matches Err(e) ==> e == (if !uri_len_ok(uri@) {
            BubblegumCpiError::UriTooLong
        } else {
            BubblegumCpiError::InvalidUri
        }),
{
    if uri.as_bytes().len() > MAX_URI_LENGTH {
        return Err(BubblegumCpiError::UriTooLong);
    }
    if !uri_is_well_formed(uri) {
        return Err(BubblegumCpiError::InvalidUri);
    }
    Ok(())
}

} // verus!
