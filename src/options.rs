use vstd::prelude::*;

use crate::error::PlayError;

verus! {

#[verifier::external_type_specification]
#[verifier::external_body]
pub struct ExUrl(url::Url);

#[verifier::external_type_specification]
#[verifier::external_body]
pub struct ExUrlParseError(url::ParseError);

/// Whether `url` accepts `input` as an absolute URL.
pub uninterp spec fn url_parses(input: Seq<char>) -> bool;

/// Whether `url` resolves the reference `path` against the absolute URL
/// written `base`.
pub uninterp spec fn url_resolves(base: Seq<char>, path: Seq<char>) -> bool;

/// Relies on `url::Url::parse`: whether a text parses depends on the text alone.
pub assume_specification[ url::Url::parse ](input: &str) -> (r: Result<url::Url, url::ParseError>)
    ensures
        r is Ok <==> url_parses(input@),
;

/// Relies on `url::Url::parse` of `base`, then `url::Url::join` of `path` onto
/// it: whether the URL comes out depends on the two texts alone.
#[verifier::external_body]
fn resolve(base: &str, path: &str) -> (r: Result<url::Url, url::ParseError>)
    ensures
        r is Ok <==> url_resolves(base@, path@),
{
    url::Url::parse(base)?.join(path)
}

/// Where the service lives, and whether games are played in training mode.
pub struct PlayerOptions {
    pub lucca_url: String,
    pub training: bool,
}

impl PlayerOptions {
    /// Options for the service at `lucca_url`: `InvalidUrl` exactly where it
    /// does not parse as an absolute URL.
    pub fn new(lucca_url: &str, training: bool) -> (r: Result<PlayerOptions, PlayError>)
        ensures
            r is Ok <==> url_parses(lucca_url@),
            match r {
                Ok(o) => o.lucca_url@ == lucca_url@ && o.training == training,
                Err(e) => e == PlayError::InvalidUrl,
            },
    {
        match url::Url::parse(lucca_url) {
            Ok(_) => Ok(PlayerOptions { lucca_url: lucca_url.to_string(), training }),
            Err(_) => Err(PlayError::InvalidUrl),
        }
    }

    /// The URL of `path` relative to the service's base URL: `InvalidUrl`
    /// exactly where it cannot be resolved.
    pub fn endpoint(&self, path: &str) -> (r: Result<url::Url, PlayError>)
        ensures
            r is Ok <==> url_resolves(self.lucca_url@, path@),
            r matches Err(e) ==> e == PlayError::InvalidUrl,
    {
        match resolve(self.lucca_url.as_str(), path) {
            Ok(u) => Ok(u),
            Err(_) => Err(PlayError::InvalidUrl),
        }
    }
}

} // verus!
