//! Addresses on arxiv.org, handed to the `url` crate to be read.

use vstd::prelude::*;

verus! {

/// The type `url::Url`, which verified code carries along without looking
/// inside.
#[verifier::external_type_specification]
#[verifier::external_body]
pub struct ExUrl(url::Url);

/// Whether `url::Url::parse` reads `text` as an absolute URL.
pub uninterp spec fn is_absolute_url(text: Seq<char>) -> bool;

/// Hands `text` to `url::Url::parse` and returns the URL where that function
/// succeeds. Whether it does is a matter of the text alone, and is all that is
/// claimed of it: nothing is said of what the URL holds.
#[verifier::external_body]
pub(crate) fn parse_url(text: &str) -> (r: Option<url::Url>)
    ensures
        r is Some <==> is_absolute_url(text@),
{
    url::Url::parse(text).ok()
}

} // verus!
