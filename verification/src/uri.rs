//! The address that a gRPC endpoint is reached at.
use vstd::prelude::*;

use crate::text::{prefix_and_what_follows, starts_with};

verus! {

/// Whether the endpoint already names one of the two schemes.
pub open spec fn has_scheme(endpoint: Seq<char>) -> bool {
    ||| crate::text::begins_with(endpoint, "http://"@)
    ||| crate::text::begins_with(endpoint, "https://"@)
}

/// The endpoint itself where it names a scheme, else the endpoint over plain HTTP.
pub open spec fn addressed(endpoint: Seq<char>) -> Seq<char> {
    if has_scheme(endpoint) {
        endpoint
    } else {
        "http://"@ + endpoint
    }
}

/// Every address names a scheme.
pub proof fn addressed_has_scheme(endpoint: Seq<char>)
    ensures
        has_scheme(addressed(endpoint)),
{
    if !has_scheme(endpoint) {
        let scheme = "http://"@;
        assert((scheme + endpoint).subrange(0, scheme.len() as int) =~= scheme);
    }
}

/// An address is its own address: asking twice changes nothing.
pub proof fn addressed_is_idempotent(endpoint: Seq<char>)
    ensures
        addressed(addressed(endpoint)) == addressed(endpoint),
{
    addressed_has_scheme(endpoint);
}

/// The address of a gRPC endpoint: the endpoint as it is where it begins with `http://` or
/// `https://`, else the endpoint behind `http://`.
pub fn safe_uri(endpoint: &str) -> (uri: String)
    ensures
        uri@ == addressed(endpoint@),
{
    if starts_with(endpoint, "http://") || starts_with(endpoint, "https://") {
        endpoint.to_string()
    } else {
        "http://".to_string().concat(endpoint)
    }
}

/// An endpoint that begins with one of the two schemes, written out, is its own address.
pub proof fn scheme_is_kept(rest: Seq<char>)
    ensures
        addressed("http://"@ + rest) == "http://"@ + rest,
        addressed("https://"@ + rest) == "https://"@ + rest,
{
    prefix_and_what_follows(Seq::empty(), "http://"@, rest);
    prefix_and_what_follows(Seq::empty(), "https://"@, rest);
}

/// Every other endpoint is kept whole, behind the plain scheme.
pub proof fn other_endpoint_is_kept_whole(endpoint: Seq<char>)
    requires
        forall|rest: Seq<char>| endpoint != #[trigger] ("http://"@ + rest),
        forall|rest: Seq<char>| endpoint != #[trigger] ("https://"@ + rest),
    ensures
        addressed(endpoint) == "http://"@ + endpoint,
{
    prefix_and_what_follows(endpoint, "http://"@, Seq::empty());
    prefix_and_what_follows(endpoint, "https://"@, Seq::empty());
}

} // verus!
