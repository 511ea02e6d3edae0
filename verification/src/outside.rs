//! What is taken from outside this crate without proof.

use crate::number;
use vstd::prelude::*;

verus! {

/// What `str::to_lowercase` makes of a text that is not plain ASCII.
pub uninterp spec fn unicode_lowercase(s: Seq<char>) -> Seq<char>;

/// The lower-case form of an ASCII character.
pub open spec fn ascii_lower(c: char) -> char {
    if 'A' <= c <= 'Z' {
        ((c as u32) + 32) as char
    } else {
        c
    }
}

/// The lower-case form of a text: letter by letter where it is plain ASCII,
/// whatever Unicode says where it is not.
pub open spec fn lowercase(s: Seq<char>) -> Seq<char> {
    if vstd::utf8::is_ascii_chars(s) {
        s.map_values(|c: char| ascii_lower(c))
    } else {
        unicode_lowercase(s)
    }
}

/// Calls `str::to_lowercase`. Taken on trust: on a plain ASCII text it changes
/// the letters `A` to `Z` into `a` to `z` and nothing else, and on any other
/// text its result depends on that text alone. Nothing more is said of texts that
/// are not plain ASCII: neither which characters their lower-case forms hold nor
/// that lowering them twice is the same as lowering them once.
#[verifier::external_body]
pub(crate) fn to_lowercase(s: &str) -> (r: String)
    ensures
        vstd::utf8::is_ascii_chars(s@) ==> r@ == s@.map_values(|c: char| ascii_lower(c)),
        !vstd::utf8::is_ascii_chars(s@) ==> r@ == unicode_lowercase(s@),
{
    s.to_lowercase()
}

/// What `url::Url::parse` makes of a text: the URL in its normal spelling, or
/// nothing where the text is no absolute URL.
pub uninterp spec fn parsed_url(input: Seq<char>) -> Option<Seq<char>>;

/// The address of the service on this machine that listens on `port`.
pub open spec fn local_page(port: nat) -> Seq<char> {
    "http://localhost:"@ + number::decimal(port)
}

/// The normal spelling of that address: the path is spelled out, and the port
/// left out where it is the one that `http` implies.
pub open spec fn normal_local_page(port: nat) -> Seq<char> {
    if port == 80 {
        "http://localhost/"@
    } else {
        local_page(port) + "/"@
    }
}

/// Calls `url::Url::parse` and hands back the serialization of the URL. Taken on
/// trust: the outcome depends on the text alone, and the address of a service
/// on this machine parses, to its normal spelling.
#[verifier::external_body]
pub(crate) fn parse_url(input: &str) -> (r: Option<String>)
    ensures
        r.deep_view() == parsed_url(input@),
        forall|port: nat|
            port <= 65535 && input@ == #[trigger] local_page(port) ==> r.deep_view() == Some(
                normal_local_page(port),
            ),
{
    url::Url::parse(input).ok().map(String::from)
}

} // verus!
