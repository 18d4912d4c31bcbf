//! The persisted selection record is a single JSON-encoded string: the
//! canonical platform name between two quotes. Encoding and decoding are done
//! by serde_json behind the two trusted wrappers below; everything that is
//! stored here stays within the plain characters that serde_json writes
//! through unchanged, so the encoded form can be stated exactly.

use vstd::prelude::*;

verus! {

/// A character that serde_json writes into a JSON string without escaping:
/// printable ASCII other than the quote and the backslash.
pub open spec fn is_plain_char(c: char) -> bool {
    ' ' <= c <= '~' && c != '"' && c != '\\'
}

/// A string of plain characters only.
pub open spec fn is_plain_str(s: Seq<char>) -> bool {
    forall|i: int| 0 <= i < s.len() ==> is_plain_char(#[trigger] s[i])
}

/// The JSON encoding of a plain string: the same characters between quotes.
pub open spec fn json_quote(s: Seq<char>) -> Seq<char> {
    seq!['"'] + s + seq!['"']
}

/// Quoting is injective: equal encodings come from equal strings.
pub proof fn lemma_json_quote_injective(a: Seq<char>, b: Seq<char>)
    requires
        json_quote(a) == json_quote(b),
    ensures
        a == b,
{
    assert(json_quote(a).len() == a.len() + 2);
    assert(json_quote(b).len() == b.len() + 2);
    assert(a.len() == b.len());
    assert(a =~= b) by {
        assert forall|i: int| 0 <= i < a.len() implies a[i] == b[i] by {
            assert(json_quote(a)[i + 1] == a[i]);
            assert(json_quote(b)[i + 1] == b[i]);
        }
    }
}

/// Relies on serde_json::to_string for &str: each character outside its
/// escape table (the quote, the backslash and the control characters) is
/// written through unchanged, between an opening and a closing quote, and
/// serializing a string value into an in-memory buffer cannot fail.
#[verifier::external_body]
pub(crate) fn encode_json_string(s: &str) -> (r: String)
    requires
        is_plain_str(s@),
    ensures
        r@ == json_quote(s@),
{
    serde_json::to_string(s).unwrap()
}

/// What serde_json::from_str::<String> returns for a document: the string
/// value it parses to, or `None` where it errs. Parsing depends on the
/// document alone, so the result can carry a name; what the name is on a
/// given document is known only where the trusted decoder below says so.
pub uninterp spec fn json_parse(s: Seq<char>) -> Option<Seq<char>>;

/// Relies on serde_json::from_str::<String>: parsing is a function of the
/// document alone (named `json_parse`), and a document that is exactly a
/// quote, a run of characters that need no escaping, and a closing quote
/// parses to that run of characters.
#[verifier::external_body]
pub(crate) fn decode_json_string(s: &str) -> (r: Option<String>)
    ensures
        r is Some <==> json_parse(s@) is Some,
        r matches Some(v) ==> json_parse(s@) == Some(v@),
        forall|t: Seq<char>| is_plain_str(t) && s@ == json_quote(t) ==> r is Some && r->0@ == t,
{
    match serde_json::from_str::<String>(s) {
        Ok(v) => Some(v),
        Err(_) => None,
    }
}

} // verus!
